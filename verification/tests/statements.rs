use chrono::NaiveDate;
use chrono::NaiveDateTime;
use diesel_timescaledb::schema::chunks::drop_old_chunks;
use diesel_timescaledb::schema::chunks::get_chunk_info;
use diesel_timescaledb::schema::chunks::ChunkInfo;
use diesel_timescaledb::schema::ContinuousAggregateConfig;
use diesel_timescaledb::schema::Hypertable;
use diesel_timescaledb::schema::SqlIdentifier;
use diesel_timescaledb::schema::TimeInterval;
use diesel_timescaledb::schema::TimeUnit;
use diesel_timescaledb::statement::BindValue;
use diesel_timescaledb::statement::Statement;

fn metrics() -> Hypertable {
    Hypertable::new(
        SqlIdentifier::new("metrics").unwrap(),
        SqlIdentifier::new("timestamp").unwrap(),
    )
}

fn text(s: &str) -> BindValue {
    BindValue::Text(s.to_string())
}

fn noon(year: i32, month: u32, day: u32) -> NaiveDateTime {
    NaiveDate::from_ymd_opt(year, month, day).unwrap().and_hms_opt(12, 0, 0).unwrap()
}

#[test]
fn statement_binds_in_order() {
    let s = Statement::new("SELECT f($1, $2, $3);".to_string());
    assert_eq!(s.sql, "SELECT f($1, $2, $3);");
    assert!(s.params.is_empty());
    let at = noon(2024, 2, 29);
    let s = s.bind_text("a").bind_timestamptz(at).bind_text("b");
    assert_eq!(s.sql, "SELECT f($1, $2, $3);");
    assert_eq!(s.params, vec![text("a"), BindValue::Timestamptz(at), text("b")]);
}

#[test]
fn hypertable_keeps_its_names() {
    let h = metrics();
    assert_eq!(h.table_name.as_str(), "metrics");
    assert_eq!(h.time_column.as_str(), "timestamp");
    assert_eq!(h.clone(), h);
}

#[test]
fn create_hypertable_binds_table_and_column() {
    let s = metrics().create_hypertable();
    assert_eq!(s.sql, "SELECT create_hypertable($1, $2);");
    assert_eq!(s.params, vec![text("metrics"), text("timestamp")]);
}

#[test]
fn create_hypertable_with_interval_writes_the_interval() {
    let s = metrics().create_hypertable_with_interval(TimeInterval::new(7, TimeUnit::Days));
    assert_eq!(
        s.sql,
        "SELECT create_hypertable($1, $2, chunk_time_interval => INTERVAL '7 days');"
    );
    assert_eq!(s.params, vec![text("metrics"), text("timestamp")]);
}

#[test]
fn create_hypertable_with_interval_str_validates_first() {
    let s = metrics().create_hypertable_with_interval_str("1 day").unwrap();
    assert_eq!(
        s,
        metrics().create_hypertable_with_interval(TimeInterval::new(1, TimeUnit::Days))
    );
    assert_eq!(
        s.sql,
        "SELECT create_hypertable($1, $2, chunk_time_interval => INTERVAL '1 days');"
    );
    let e = metrics().create_hypertable_with_interval_str("1 day'); DROP TABLE x; --").unwrap_err();
    assert_eq!(e.to_string(), "Invalid time interval: Invalid character ''' in interval");
}

#[test]
fn compression_policy_binds_the_table() {
    let s = metrics().add_compression_policy(TimeInterval::new(30, TimeUnit::Days));
    assert_eq!(s.sql, "SELECT add_compression_policy($1, INTERVAL '30 days');");
    assert_eq!(s.params, vec![text("metrics")]);
    let from_text = metrics().add_compression_policy_str("30 d").unwrap();
    assert_eq!(from_text, s);
    let e = metrics().add_compression_policy_str("thirty days").unwrap_err();
    assert_eq!(e.to_string(), "Invalid time interval: Invalid numeric value");
}

#[test]
fn retention_policy_binds_the_table() {
    let s = metrics().add_retention_policy(TimeInterval::new(1, TimeUnit::Years));
    assert_eq!(s.sql, "SELECT add_retention_policy($1, INTERVAL '1 years');");
    assert_eq!(s.params, vec![text("metrics")]);
    let from_text = metrics().add_retention_policy_str("1 YEAR").unwrap();
    assert_eq!(from_text, s);
    let e = metrics().add_retention_policy_str("").unwrap_err();
    assert_eq!(e.to_string(), "Invalid time interval: Interval cannot be empty");
}

#[test]
fn continuous_aggregate_builders_set_one_field_each() {
    let c = ContinuousAggregateConfig::new("v", "SELECT 1");
    assert_eq!(c.view_name, "v");
    assert_eq!(c.query, "SELECT 1");
    assert_eq!(c.refresh_lag, None);
    assert_eq!(c.refresh_interval, None);
    let c = c.with_refresh_lag("5 minutes");
    assert_eq!(c.refresh_lag.as_deref(), Some("5 minutes"));
    assert_eq!(c.refresh_interval, None);
    let c = c.with_refresh_interval("1 hour");
    assert_eq!(c.view_name, "v");
    assert_eq!(c.query, "SELECT 1");
    assert_eq!(c.refresh_lag.as_deref(), Some("5 minutes"));
    assert_eq!(c.refresh_interval.as_deref(), Some("1 hour"));
}

#[test]
fn continuous_aggregate_without_policy_is_one_statement() {
    let query = "SELECT time_bucket('1 hour', ts) AS bucket, avg(v) FROM m GROUP BY bucket";
    let statements = ContinuousAggregateConfig::new("hourly", query).create().unwrap();
    assert_eq!(statements.len(), 1);
    assert_eq!(
        statements[0].sql,
        format!("CREATE MATERIALIZED VIEW \"hourly\" WITH (timescaledb.continuous) AS {};", query)
    );
    assert!(statements[0].params.is_empty());
}

#[test]
fn continuous_aggregate_with_interval_and_lag_is_two_statements() {
    let statements = ContinuousAggregateConfig::new("v", "...")
        .with_refresh_interval("1 hour")
        .with_refresh_lag("5 minutes")
        .create()
        .unwrap();
    assert_eq!(statements.len(), 2);
    assert_eq!(
        statements[0].sql,
        "CREATE MATERIALIZED VIEW \"v\" WITH (timescaledb.continuous) AS ...;"
    );
    assert!(statements[0].params.is_empty());
    assert_eq!(
        statements[1].sql,
        "SELECT add_continuous_aggregate_policy($1, start_offset => NULL, \
         end_offset => INTERVAL '1 hours', schedule_interval => INTERVAL '5 minutes');"
    );
    assert!(statements[1].sql.contains("INTERVAL '1 hours'"));
    assert!(statements[1].sql.contains("INTERVAL '5 minutes'"));
    assert_eq!(statements[1].params, vec![text("v")]);
}

#[test]
fn continuous_aggregate_with_interval_only_has_no_schedule() {
    let statements =
        ContinuousAggregateConfig::new("v", "q").with_refresh_interval("2 h").create().unwrap();
    assert_eq!(statements.len(), 2);
    assert_eq!(
        statements[1].sql,
        "SELECT add_continuous_aggregate_policy($1, start_offset => NULL, \
         end_offset => INTERVAL '2 hours');"
    );
    assert_eq!(statements[1].params, vec![text("v")]);
}

#[test]
fn continuous_aggregate_lag_alone_makes_no_policy() {
    let statements =
        ContinuousAggregateConfig::new("v", "q").with_refresh_lag("not an interval!").create().unwrap();
    assert_eq!(statements.len(), 1);
}

#[test]
fn continuous_aggregate_validates_before_any_statement() {
    let e = ContinuousAggregateConfig::new("v; DROP TABLE x; --", "q")
        .with_refresh_interval("1 hour")
        .create()
        .unwrap_err();
    assert_eq!(e.to_string(), "Invalid SQL identifier: Invalid character ';' in identifier");
    let e = ContinuousAggregateConfig::new("v", "q").with_refresh_interval("soon").create().unwrap_err();
    assert_eq!(
        e.to_string(),
        "Invalid time interval: Interval must have format 'number unit'"
    );
    let e = ContinuousAggregateConfig::new("v", "q")
        .with_refresh_interval("1 hour")
        .with_refresh_lag("5 parsecs")
        .create()
        .unwrap_err();
    assert_eq!(e.to_string(), "Invalid time interval: Unknown time unit: parsecs");
    // The view name is looked at first, then the interval, then the lag.
    let e = ContinuousAggregateConfig::new("select", "q")
        .with_refresh_interval("soon")
        .with_refresh_lag("later")
        .create()
        .unwrap_err();
    assert_eq!(e.to_string(), "Invalid SQL identifier: 'select' is a reserved SQL keyword");
    let e = ContinuousAggregateConfig::new("v", "q")
        .with_refresh_interval("x y")
        .with_refresh_lag("5 parsecs")
        .create()
        .unwrap_err();
    assert_eq!(e.to_string(), "Invalid time interval: Invalid numeric value");
}

#[test]
fn chunk_listing_binds_the_table() {
    let s = get_chunk_info("metrics").unwrap();
    assert_eq!(
        s.sql,
        "SELECT chunk_schema, chunk_name, table_name, range_start, range_end \n             \
         FROM timescaledb_information.chunks \n             WHERE hypertable_name = $1"
    );
    assert_eq!(s.params, vec![text("metrics")]);
    let e = get_chunk_info("metrics; --").unwrap_err();
    assert_eq!(e.to_string(), "Invalid SQL identifier: Invalid character ';' in identifier");
}

#[test]
fn dropping_chunks_binds_table_and_cutoff() {
    let cutoff = noon(2023, 6, 1);
    let s = drop_old_chunks("metrics", cutoff).unwrap();
    assert_eq!(s.sql, "SELECT drop_chunks($1, $2);");
    assert_eq!(s.params, vec![text("metrics"), BindValue::Timestamptz(cutoff)]);
    assert_ne!(s.params[1], BindValue::Timestamptz(noon(2023, 6, 2)));
    let e = drop_old_chunks("", cutoff).unwrap_err();
    assert_eq!(e.to_string(), "Invalid SQL identifier: Identifier cannot be empty");
}

#[test]
fn chunk_info_holds_what_the_database_reports() {
    let info = ChunkInfo {
        chunk_schema: "_timescaledb_internal".to_string(),
        chunk_name: "_hyper_1_1_chunk".to_string(),
        table_name: "metrics".to_string(),
        range_start: Some(noon(2024, 1, 1)),
        range_end: None,
    };
    assert_eq!(info.table_name, "metrics");
    assert_eq!(info.range_start, Some(noon(2024, 1, 1)));
    assert_eq!(info.range_end, None);
}
