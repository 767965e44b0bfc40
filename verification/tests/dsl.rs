use chrono::DateTime;
use chrono::NaiveDateTime;
use diesel_timescaledb::dsl::patterns::TimeSeriesAggregation;
use diesel_timescaledb::dsl::TimescaleQueryDsl;
use diesel_timescaledb::schema::SqlIdentifier;
use diesel_timescaledb::schema::TimeInterval;
use diesel_timescaledb::schema::TimeUnit;
use diesel_timescaledb::types::TimeDimension;
use diesel_timescaledb::types::TimestampTz;

fn at(seconds: i64) -> NaiveDateTime {
    DateTime::from_timestamp(seconds, 0).unwrap().naive_utc()
}

#[test]
fn aggregation_queries_for_metrics() {
    let agg = TimeSeriesAggregation::new("metrics", "timestamp", "value", "1 hour").unwrap();
    let avg = agg.avg_query();
    assert!(avg.contains("time_bucket(INTERVAL '1 hours', \"timestamp\")"));
    assert!(avg.contains("avg(\"value\")"));
    assert!(avg.contains("FROM \"metrics\""));
    assert!(avg.contains("GROUP BY bucket"));
    assert!(avg.contains("ORDER BY bucket"));
    assert!(avg.find("GROUP BY bucket").unwrap() < avg.find("ORDER BY bucket").unwrap());
    assert_eq!(
        avg,
        "SELECT time_bucket(INTERVAL '1 hours', \"timestamp\") as bucket, \
         avg(\"value\") as average \n                 FROM \"metrics\" \n                 \
         GROUP BY bucket \n                 ORDER BY bucket"
    );
}

#[test]
fn sum_and_count_queries() {
    let agg = TimeSeriesAggregation::new("m", "ts", "v", "15 m").unwrap();
    assert_eq!(
        agg.sum_query(),
        "SELECT time_bucket(INTERVAL '15 minutes', \"ts\") as bucket, \
         sum(\"v\") as total \n                 FROM \"m\" \n                 \
         GROUP BY bucket \n                 ORDER BY bucket"
    );
    assert_eq!(
        agg.count_query(),
        "SELECT time_bucket(INTERVAL '15 minutes', \"ts\") as bucket, \
         count(*) as count \n                 FROM \"m\" \n                 \
         GROUP BY bucket \n                 ORDER BY bucket"
    );
}

#[test]
fn aggregation_from_validated_parts() {
    let typed = TimeSeriesAggregation::new_typed(
        SqlIdentifier::new("metrics").unwrap(),
        SqlIdentifier::new("timestamp").unwrap(),
        SqlIdentifier::new("value").unwrap(),
        TimeInterval::new(1, TimeUnit::Hours),
    );
    let from_text = TimeSeriesAggregation::new("metrics", "timestamp", "value", "1 hour").unwrap();
    assert_eq!(typed, from_text);
    assert_eq!(typed.avg_query(), from_text.avg_query());
    assert_eq!(typed.table_name.as_str(), "metrics");
    assert_eq!(typed.bucket_interval, TimeInterval::new(1, TimeUnit::Hours));
}

#[test]
fn aggregation_reports_the_first_bad_part() {
    let reason = |t: &str, c: &str, v: &str, i: &str| -> String {
        TimeSeriesAggregation::new(t, c, v, i).map(|_| ()).unwrap_err().to_string()
    };
    assert_eq!(
        reason("select", "1", "", "x"),
        "Invalid SQL identifier: 'select' is a reserved SQL keyword"
    );
    assert_eq!(
        reason("metrics", "1", "", "x"),
        "Invalid SQL identifier: Identifier must start with letter or underscore"
    );
    assert_eq!(
        reason("metrics", "ts", "", "x"),
        "Invalid SQL identifier: Identifier cannot be empty"
    );
    assert_eq!(
        reason("metrics", "ts", "v", "x"),
        "Invalid time interval: Interval must have format 'number unit'"
    );
    assert_eq!(
        reason("metrics\"; DROP TABLE x; --", "ts", "v", "1 hour"),
        "Invalid SQL identifier: Invalid character '\"' in identifier"
    );
}

#[test]
fn time_bucket_keeps_query_column_and_interval() {
    let q = "query".to_string().time_bucket(7u32, TimeInterval::new(5, TimeUnit::Minutes));
    assert_eq!(*q.time_column(), 7);
    assert_eq!(*q.interval(), TimeInterval::new(5, TimeUnit::Minutes));
    assert_eq!(q.interval_sql(), "5 minutes");
    assert_eq!(q.clone().into_inner(), "query");
    assert_eq!(q.into_inner(), "query");
}

#[test]
fn time_bucket_str_validates_the_interval() {
    let q = 1u8.time_bucket_str("ts", "2 weeks").unwrap();
    assert_eq!(*q.time_column(), "ts");
    assert_eq!(*q.interval(), TimeInterval::new(2, TimeUnit::Weeks));
    assert_eq!(q.interval_sql(), "2 weeks");
    assert_eq!(q.into_inner(), 1);
    let e = 1u8.time_bucket_str("ts", "2 weeks; --").map(|_| ()).unwrap_err();
    assert_eq!(e.to_string(), "Invalid time interval: Invalid character ';' in interval");
}

#[test]
fn time_range_keeps_its_ends() {
    let q = "query".time_range("ts", at(100), at(200));
    assert_eq!(*q.time_column(), "ts");
    assert_eq!(*q.start(), at(100));
    assert_eq!(*q.end(), at(200));
    assert_eq!(q.clone().into_inner(), "query");
    assert_eq!(q.into_inner(), "query");
}

#[test]
fn timestamp_wraps_a_point_in_time() {
    let t = at(1_700_000_000);
    let ts = TimestampTz::new(t);
    assert_eq!(*ts.inner(), t);
    assert_eq!(ts.0, t);
    assert_eq!(TimestampTz::from(t), ts);
    assert_eq!(NaiveDateTime::from(ts), t);
    assert_eq!(ts.to_sql_value(), t);
    assert_eq!(t.to_sql_value(), t);
    assert_ne!(TimestampTz::new(at(1)), ts);
}

#[test]
fn timestamps_are_ordered_by_time() {
    let early = TimestampTz::new(at(10));
    let late = TimestampTz::new(at(20));
    assert!(early < late);
    assert!(late > early);
    assert_eq!(early.clone(), early);
    assert_eq!(early.max(late), late);
}
