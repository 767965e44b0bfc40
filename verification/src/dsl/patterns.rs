//! Ready-made queries over a time series: the average, the sum or the count
//! of a column per time bucket.

use vstd::prelude::*;
use vstd::string::StringExecFns;
use crate::schema::error::ValidationError;
use crate::schema::error::ValidationErrorView;
use crate::schema::identifier::identifier_verdict;
use crate::schema::identifier::quote_identifier;
use crate::schema::identifier::SqlIdentifier;
use crate::schema::interval::interval_sql;
use crate::schema::interval::interval_verdict;
use crate::schema::interval::IntervalView;
use crate::schema::interval::TimeInterval;

verus! {

/// A bucketed aggregation over one column of one table. Every part is
/// validated, so the queries made from it hold nothing but what they are
/// meant to hold.
#[derive(Debug, Clone, PartialEq, Eq)]
pub struct TimeSeriesAggregation {
    /// The table that is read.
    pub table_name: SqlIdentifier,
    /// The column that holds the time.
    pub time_column: SqlIdentifier,
    /// The column that is aggregated.
    pub value_column: SqlIdentifier,
    /// The width of a bucket.
    pub bucket_interval: TimeInterval,
}

/// A `TimeSeriesAggregation` with its names as sequences of characters.
pub struct AggregationView {
    pub table_name: Seq<char>,
    pub time_column: Seq<char>,
    pub value_column: Seq<char>,
    pub bucket_interval: IntervalView,
}

impl View for TimeSeriesAggregation {
    type V = AggregationView;

    open spec fn view(&self) -> AggregationView {
        AggregationView {
            table_name: self.table_name@,
            time_column: self.time_column@,
            value_column: self.value_column@,
            bucket_interval: self.bucket_interval@,
        }
    }
}

/// What making an aggregation from four texts yields: the aggregation, or the
/// first error that validation finds. The table is checked first, then the
/// time column, the value column and the bucket interval.
pub open spec fn aggregation_verdict(
    table_name: Seq<char>,
    time_column: Seq<char>,
    value_column: Seq<char>,
    bucket_interval: Seq<char>,
) -> Result<AggregationView, ValidationErrorView> {
    match identifier_verdict(table_name) {
        Err(e) => Err(e),
        Ok(_) => match identifier_verdict(time_column) {
            Err(e) => Err(e),
            Ok(_) => match identifier_verdict(value_column) {
                Err(e) => Err(e),
                Ok(_) => match interval_verdict(bucket_interval) {
                    Err(e) => Err(e),
                    Ok(interval) => Ok(
                        AggregationView {
                            table_name,
                            time_column,
                            value_column,
                            bucket_interval: interval,
                        },
                    ),
                },
            },
        },
    }
}

/// The start of every query: the bucket of each row.
pub open spec fn bucket_select(a: AggregationView) -> Seq<char> {
    "SELECT time_bucket("@ + interval_sql(a.bucket_interval) + ", "@ + quote_identifier(
        a.time_column,
    ) + ") as bucket, "@
}

/// The end of every query: the table, then grouping and ordering by bucket.
pub open spec fn bucket_from(a: AggregationView) -> Seq<char> {
    " \n                 FROM "@ + quote_identifier(a.table_name)
        + " \n                 GROUP BY bucket \n                 ORDER BY bucket"@
}

/// The query for the average of the value column per bucket.
pub open spec fn avg_query_text(a: AggregationView) -> Seq<char> {
    bucket_select(a) + "avg("@ + quote_identifier(a.value_column) + ") as average"@ + bucket_from(
        a,
    )
}

/// The query for the sum of the value column per bucket.
pub open spec fn sum_query_text(a: AggregationView) -> Seq<char> {
    bucket_select(a) + "sum("@ + quote_identifier(a.value_column) + ") as total"@ + bucket_from(a)
}

/// The query for the number of rows per bucket.
pub open spec fn count_query_text(a: AggregationView) -> Seq<char> {
    bucket_select(a) + "count(*) as count"@ + bucket_from(a)
}

impl TimeSeriesAggregation {
    /// Validates the four texts and, where all pass, makes the aggregation.
    pub fn new(
        table_name: &str,
        time_column: &str,
        value_column: &str,
        bucket_interval: &str,
    ) -> (r: Result<Self, ValidationError>)
        ensures
            match r {
                Ok(a) => aggregation_verdict(
                    table_name@,
                    time_column@,
                    value_column@,
                    bucket_interval@,
                ) == Ok::<AggregationView, ValidationErrorView>(a@),
                Err(e) => aggregation_verdict(
                    table_name@,
                    time_column@,
                    value_column@,
                    bucket_interval@,
                ) == Err::<AggregationView, ValidationErrorView>(e@),
            },
    {
        let table = match SqlIdentifier::new(table_name) {
            Ok(id) => id,
            Err(e) => {
                return Err(e);
            },
        };
        let time = match SqlIdentifier::new(time_column) {
            Ok(id) => id,
            Err(e) => {
                return Err(e);
            },
        };
        let value = match SqlIdentifier::new(value_column) {
            Ok(id) => id,
            Err(e) => {
                return Err(e);
            },
        };
        let interval = match TimeInterval::from_string(bucket_interval) {
            Ok(interval) => interval,
            Err(e) => {
                return Err(e);
            },
        };
        Ok(
            TimeSeriesAggregation {
                table_name: table,
                time_column: time,
                value_column: value,
                bucket_interval: interval,
            },
        )
    }

    /// Makes the aggregation from parts that are validated already.
    pub fn new_typed(
        table_name: SqlIdentifier,
        time_column: SqlIdentifier,
        value_column: SqlIdentifier,
        bucket_interval: TimeInterval,
    ) -> (r: Self)
        ensures
            r.table_name == table_name,
            r.time_column == time_column,
            r.value_column == value_column,
            r.bucket_interval == bucket_interval,
    {
        TimeSeriesAggregation { table_name, time_column, value_column, bucket_interval }
    }

    /// The start of every query, up to the aggregate.
    fn select_head(&self) -> (r: String)
        ensures
            r@ == bucket_select(self@),
    {
        let mut sql = String::from_str("SELECT time_bucket(");
        sql.append(self.bucket_interval.to_sql().as_str());
        sql.append(", ");
        sql.append(self.time_column.escaped().as_str());
        sql.append(") as bucket, ");
        sql
    }

    /// Appends the end of every query, from the table on.
    fn push_from(&self, sql: &mut String)
        ensures
            final(sql)@ == old(sql)@ + bucket_from(self@),
    {
        sql.append(" \n                 FROM ");
        sql.append(self.table_name.escaped().as_str());
        sql.append(" \n                 GROUP BY bucket \n                 ORDER BY bucket");
        assert(sql@ == old(sql)@ + bucket_from(self@));
    }

    /// The query for the average of the value column per bucket.
    pub fn avg_query(&self) -> (r: String)
        ensures
            r@ == avg_query_text(self@),
    {
        let mut sql = self.select_head();
        sql.append("avg(");
        sql.append(self.value_column.escaped().as_str());
        sql.append(") as average");
        self.push_from(&mut sql);
        sql
    }

    /// The query for the sum of the value column per bucket.
    pub fn sum_query(&self) -> (r: String)
        ensures
            r@ == sum_query_text(self@),
    {
        let mut sql = self.select_head();
        sql.append("sum(");
        sql.append(self.value_column.escaped().as_str());
        sql.append(") as total");
        self.push_from(&mut sql);
        sql
    }

    /// The query for the number of rows per bucket.
    pub fn count_query(&self) -> (r: String)
        ensures
            r@ == count_query_text(self@),
    {
        let mut sql = self.select_head();
        sql.append("count(*) as count");
        self.push_from(&mut sql);
        sql
    }
}

} // verus!
