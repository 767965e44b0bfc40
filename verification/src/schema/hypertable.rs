//! Statements that turn a table into a hypertable and set its policies.
//!
//! The table and its time column are bound as parameters. An interval cannot
//! be bound where these statements need it, so its canonical writing stands
//! in the statement text; that is safe because a `TimeInterval` is written
//! with digits, one space and lower-case letters only.

use vstd::prelude::*;
use vstd::string::StringExecFns;
use crate::schema::error::ValidationError;
use crate::schema::error::ValidationErrorView;
use crate::schema::identifier::SqlIdentifier;
use crate::schema::interval::interval_sql;
use crate::schema::interval::interval_verdict;
use crate::schema::interval::IntervalView;
use crate::schema::interval::TimeInterval;
use crate::statement::BindValueView;
use crate::statement::Statement;
use crate::statement::StatementView;

verus! {

/// A table that is, or is to become, a hypertable, and the column by which it
/// is partitioned.
#[derive(Debug, Clone, PartialEq, Eq)]
pub struct Hypertable {
    /// The name of the table.
    pub table_name: SqlIdentifier,
    /// The name of the time column.
    pub time_column: SqlIdentifier,
}

/// A `Hypertable` with its names as sequences of characters.
pub struct HypertableView {
    pub table_name: Seq<char>,
    pub time_column: Seq<char>,
}

impl View for Hypertable {
    type V = HypertableView;

    open spec fn view(&self) -> HypertableView {
        HypertableView { table_name: self.table_name@, time_column: self.time_column@ }
    }
}

/// The statement that turns `table` into a hypertable.
pub open spec fn create_hypertable_statement(table: HypertableView) -> StatementView {
    StatementView {
        sql: "SELECT create_hypertable($1, $2);"@,
        params: seq![
            BindValueView::Text(table.table_name),
            BindValueView::Text(table.time_column),
        ],
    }
}

/// The statement that turns `table` into a hypertable whose chunks span
/// `interval`.
pub open spec fn create_hypertable_with_interval_statement(
    table: HypertableView,
    interval: IntervalView,
) -> StatementView {
    StatementView {
        sql: "SELECT create_hypertable($1, $2, chunk_time_interval => "@ + interval_sql(interval)
            + ");"@,
        params: seq![
            BindValueView::Text(table.table_name),
            BindValueView::Text(table.time_column),
        ],
    }
}

/// The statement that has the chunks of `table` compressed once they are
/// older than `interval`.
pub open spec fn add_compression_policy_statement(
    table: HypertableView,
    interval: IntervalView,
) -> StatementView {
    StatementView {
        sql: "SELECT add_compression_policy($1, "@ + interval_sql(interval) + ");"@,
        params: seq![BindValueView::Text(table.table_name)],
    }
}

/// The statement that has the chunks of `table` dropped once they are older
/// than `interval`.
pub open spec fn add_retention_policy_statement(
    table: HypertableView,
    interval: IntervalView,
) -> StatementView {
    StatementView {
        sql: "SELECT add_retention_policy($1, "@ + interval_sql(interval) + ");"@,
        params: seq![BindValueView::Text(table.table_name)],
    }
}

impl Hypertable {
    /// The table `table_name`, partitioned by `time_column`.
    pub fn new(table_name: SqlIdentifier, time_column: SqlIdentifier) -> (r: Self)
        ensures
            r.table_name == table_name,
            r.time_column == time_column,
    {
        Hypertable { table_name, time_column }
    }

    /// The statement that turns the table into a hypertable.
    pub fn create_hypertable(&self) -> (r: Statement)
        ensures
            r@ == create_hypertable_statement(self@),
    {
        let r = Statement::new(String::from_str("SELECT create_hypertable($1, $2);")).bind_text(
            self.table_name.as_str(),
        ).bind_text(self.time_column.as_str());
        assert(r@.params == create_hypertable_statement(self@).params);
        r
    }

    /// The statement that turns the table into a hypertable whose chunks span
    /// `chunk_time_interval`.
    pub fn create_hypertable_with_interval(
        &self,
        chunk_time_interval: TimeInterval,
    ) -> (r: Statement)
        ensures
            r@ == create_hypertable_with_interval_statement(self@, chunk_time_interval@),
    {
        let mut sql = String::from_str("SELECT create_hypertable($1, $2, chunk_time_interval => ");
        sql.append(chunk_time_interval.to_sql().as_str());
        sql.append(");");
        let r = Statement::new(sql).bind_text(self.table_name.as_str()).bind_text(
            self.time_column.as_str(),
        );
        assert(r@.params == create_hypertable_statement(self@).params);
        r
    }

    /// Reads `chunk_time_interval` as an interval and, where it is one, gives
    /// the statement of `create_hypertable_with_interval`.
    pub fn create_hypertable_with_interval_str(
        &self,
        chunk_time_interval: &str,
    ) -> (r: Result<Statement, ValidationError>)
        ensures
            match r {
                Ok(statement) => interval_verdict(chunk_time_interval@) matches Ok(interval)
                    && statement@ == create_hypertable_with_interval_statement(self@, interval),
                Err(e) => interval_verdict(chunk_time_interval@) == Err::<
                    IntervalView,
                    ValidationErrorView,
                >(e@),
            },
    {
        match TimeInterval::from_string(chunk_time_interval) {
            Ok(interval) => Ok(self.create_hypertable_with_interval(interval)),
            Err(e) => Err(e),
        }
    }

    /// The statement that has chunks compressed once they are older than
    /// `compress_after`.
    pub fn add_compression_policy(&self, compress_after: TimeInterval) -> (r: Statement)
        ensures
            r@ == add_compression_policy_statement(self@, compress_after@),
    {
        let mut sql = String::from_str("SELECT add_compression_policy($1, ");
        sql.append(compress_after.to_sql().as_str());
        sql.append(");");
        Statement::new(sql).bind_text(self.table_name.as_str())
    }

    /// Reads `compress_after` as an interval and, where it is one, gives the
    /// statement of `add_compression_policy`.
    pub fn add_compression_policy_str(
        &self,
        compress_after: &str,
    ) -> (r: Result<Statement, ValidationError>)
        ensures
            match r {
                Ok(statement) => interval_verdict(compress_after@) matches Ok(interval)
                    && statement@ == add_compression_policy_statement(self@, interval),
                Err(e) => interval_verdict(compress_after@) == Err::<
                    IntervalView,
                    ValidationErrorView,
                >(e@),
            },
    {
        match TimeInterval::from_string(compress_after) {
            Ok(interval) => Ok(self.add_compression_policy(interval)),
            Err(e) => Err(e),
        }
    }

    /// The statement that has chunks dropped once they are older than
    /// `drop_after`.
    pub fn add_retention_policy(&self, drop_after: TimeInterval) -> (r: Statement)
        ensures
            r@ == add_retention_policy_statement(self@, drop_after@),
    {
        let mut sql = String::from_str("SELECT add_retention_policy($1, ");
        sql.append(drop_after.to_sql().as_str());
        sql.append(");");
        Statement::new(sql).bind_text(self.table_name.as_str())
    }

    /// Reads `drop_after` as an interval and, where it is one, gives the
    /// statement of `add_retention_policy`.
    pub fn add_retention_policy_str(
        &self,
        drop_after: &str,
    ) -> (r: Result<Statement, ValidationError>)
        ensures
            match r {
                Ok(statement) => interval_verdict(drop_after@) matches Ok(interval) && statement@
                    == add_retention_policy_statement(self@, interval),
                Err(e) => interval_verdict(drop_after@) == Err::<
                    IntervalView,
                    ValidationErrorView,
                >(e@),
            },
    {
        match TimeInterval::from_string(drop_after) {
            Ok(interval) => Ok(self.add_retention_policy(interval)),
            Err(e) => Err(e),
        }
    }
}

} // verus!
