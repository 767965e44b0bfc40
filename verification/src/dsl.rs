//! Time-series clauses attached to a query.
//!
//! Any value can stand for the query and for the time column: this module
//! only keeps them together with the validated interval, or with the two ends
//! of a time range, until the query is built.

use vstd::prelude::*;
use crate::schema::error::ValidationError;
use crate::schema::error::ValidationErrorView;
use crate::schema::interval::interval_literal;
use crate::schema::interval::interval_verdict;
use crate::schema::interval::IntervalView;
use crate::schema::interval::TimeInterval;

pub mod patterns;

verus! {

/// A query whose rows are grouped into time buckets.
#[derive(Debug, Clone)]
pub struct TimeBucketQuery<Query, TimeColumn> {
    query: Query,
    time_column: TimeColumn,
    interval: TimeInterval,
}

/// A query whose rows are limited to a time range.
#[derive(Debug, Clone)]
pub struct TimeRangeQuery<Query, TimeColumn, Value> {
    query: Query,
    time_column: TimeColumn,
    start: Value,
    end: Value,
}

impl<Query, TimeColumn> TimeBucketQuery<Query, TimeColumn> {
    /// The query that is bucketed.
    pub closed spec fn spec_query(self) -> Query {
        self.query
    }

    /// The column that holds the time.
    pub closed spec fn spec_time_column(self) -> TimeColumn {
        self.time_column
    }

    /// The width of a bucket.
    pub closed spec fn spec_interval(self) -> TimeInterval {
        self.interval
    }

    /// The query that is bucketed.
    pub fn into_inner(self) -> (r: Query)
        ensures
            r == self.spec_query(),
    {
        self.query
    }

    /// The column that holds the time.
    pub fn time_column(&self) -> (r: &TimeColumn)
        ensures
            *r == self.spec_time_column(),
    {
        &self.time_column
    }

    /// The width of a bucket.
    pub fn interval(&self) -> (r: &TimeInterval)
        ensures
            *r == self.spec_interval(),
    {
        &self.interval
    }

    /// The width of a bucket in its canonical writing.
    pub fn interval_sql(&self) -> (r: String)
        ensures
            r@ == interval_literal(self.spec_interval()@),
    {
        self.interval.to_postgres_interval()
    }
}

impl<Query, TimeColumn, Value> TimeRangeQuery<Query, TimeColumn, Value> {
    /// The query that is limited.
    pub closed spec fn spec_query(self) -> Query {
        self.query
    }

    /// The column that holds the time.
    pub closed spec fn spec_time_column(self) -> TimeColumn {
        self.time_column
    }

    /// Where the range starts.
    pub closed spec fn spec_start(self) -> Value {
        self.start
    }

    /// Where the range ends.
    pub closed spec fn spec_end(self) -> Value {
        self.end
    }

    /// The query that is limited.
    pub fn into_inner(self) -> (r: Query)
        ensures
            r == self.spec_query(),
    {
        self.query
    }

    /// The column that holds the time.
    pub fn time_column(&self) -> (r: &TimeColumn)
        ensures
            *r == self.spec_time_column(),
    {
        &self.time_column
    }

    /// Where the range starts.
    pub fn start(&self) -> (r: &Value)
        ensures
            *r == self.spec_start(),
    {
        &self.start
    }

    /// Where the range ends.
    pub fn end(&self) -> (r: &Value)
        ensures
            *r == self.spec_end(),
    {
        &self.end
    }
}

/// Attaches time-series clauses to a query. Every type has these methods.
pub trait TimescaleQueryDsl: Sized {
    /// Groups the rows of the query into buckets of `interval` by
    /// `time_column`.
    fn time_bucket<Expr>(self, time_column: Expr, interval: TimeInterval) -> (r: TimeBucketQuery<
        Self,
        Expr,
    >)
        ensures
            r.spec_query() == self,
            r.spec_time_column() == time_column,
            r.spec_interval() == interval,
    ;

    /// Reads `interval` as an interval and, where it is one, groups the rows
    /// of the query into buckets of that width by `time_column`.
    fn time_bucket_str<Expr>(self, time_column: Expr, interval: &str) -> (r: Result<
        TimeBucketQuery<Self, Expr>,
        ValidationError,
    >)
        ensures
            match r {
                Ok(q) => q.spec_query() == self && q.spec_time_column() == time_column
                    && interval_verdict(interval@) == Ok::<IntervalView, ValidationErrorView>(
                    q.spec_interval()@,
                ),
                Err(e) => interval_verdict(interval@) == Err::<IntervalView, ValidationErrorView>(
                    e@,
                ),
            },
    ;

    /// Limits the rows of the query to those whose `time_column` lies between
    /// `start` and `end`.
    fn time_range<Expr, V>(self, time_column: Expr, start: V, end: V) -> (r: TimeRangeQuery<
        Self,
        Expr,
        V,
    >)
        ensures
            r.spec_query() == self,
            r.spec_time_column() == time_column,
            r.spec_start() == start,
            r.spec_end() == end,
    ;
}

impl<T> TimescaleQueryDsl for T {
    fn time_bucket<Expr>(self, time_column: Expr, interval: TimeInterval) -> (r: TimeBucketQuery<
        Self,
        Expr,
    >) {
        TimeBucketQuery { query: self, time_column, interval }
    }

    fn time_bucket_str<Expr>(self, time_column: Expr, interval: &str) -> (r: Result<
        TimeBucketQuery<Self, Expr>,
        ValidationError,
    >) {
        match TimeInterval::from_string(interval) {
            Ok(validated_interval) => Ok(
                TimeBucketQuery { query: self, time_column, interval: validated_interval },
            ),
            Err(e) => Err(e),
        }
    }

    fn time_range<Expr, V>(self, time_column: Expr, start: V, end: V) -> (r: TimeRangeQuery<
        Self,
        Expr,
        V,
    >) {
        TimeRangeQuery { query: self, time_column, start, end }
    }
}

} // verus!
