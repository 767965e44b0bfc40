//! Statements on the chunks of a hypertable.

use vstd::prelude::*;
use vstd::string::StringExecFns;
use chrono::NaiveDateTime;
use crate::schema::error::ValidationError;
use crate::schema::error::ValidationErrorView;
use crate::schema::identifier::identifier_verdict;
use crate::schema::identifier::is_valid_identifier;
use crate::schema::identifier::SqlIdentifier;
use crate::statement::BindValueView;
use crate::statement::Statement;
use crate::statement::StatementView;

verus! {

/// What the database reports of one chunk of a hypertable.
#[derive(Debug, PartialEq, Eq)]
pub struct ChunkInfo {
    /// The schema that holds the chunk.
    pub chunk_schema: String,
    /// The name of the chunk.
    pub chunk_name: String,
    /// The name of the hypertable that the chunk belongs to.
    pub table_name: String,
    /// Where the time range of the chunk starts, in UTC, if it is known.
    pub range_start: Option<NaiveDateTime>,
    /// Where the time range of the chunk ends, in UTC, if it is known.
    pub range_end: Option<NaiveDateTime>,
}

/// The statement that lists the chunks of the hypertable `table_name`.
pub open spec fn chunk_info_statement(table_name: Seq<char>) -> StatementView {
    StatementView {
        sql: "SELECT chunk_schema, chunk_name, table_name, range_start, range_end \n"@
            + "             FROM timescaledb_information.chunks \n"@
            + "             WHERE hypertable_name = $1"@,
        params: seq![BindValueView::Text(table_name)],
    }
}

/// The statement that drops the chunks of the hypertable `table_name` that
/// are older than `older_than`.
pub open spec fn drop_chunks_statement(
    table_name: Seq<char>,
    older_than: NaiveDateTime,
) -> StatementView {
    StatementView {
        sql: "SELECT drop_chunks($1, $2);"@,
        params: seq![BindValueView::Text(table_name), BindValueView::Timestamptz(older_than)],
    }
}

/// Validates `table_name` and gives the statement that lists the chunks of
/// that hypertable. Each row of its result is one `ChunkInfo`.
pub fn get_chunk_info(table_name: &str) -> (r: Result<Statement, ValidationError>)
    ensures
        match r {
            Ok(statement) => is_valid_identifier(table_name@) && statement@
                == chunk_info_statement(table_name@),
            Err(e) => identifier_verdict(table_name@) == Err::<(), ValidationErrorView>(e@),
        },
{
    let table = match SqlIdentifier::new(table_name) {
        Ok(table) => table,
        Err(e) => {
            return Err(e);
        },
    };
    let mut sql = String::from_str(
        "SELECT chunk_schema, chunk_name, table_name, range_start, range_end \n",
    );
    sql.append("             FROM timescaledb_information.chunks \n");
    sql.append("             WHERE hypertable_name = $1");
    Ok(Statement::new(sql).bind_text(table.as_str()))
}

/// Validates `table_name` and gives the statement that drops the chunks of
/// that hypertable which are older than `older_than`, a point in time in UTC.
pub fn drop_old_chunks(
    table_name: &str,
    older_than: NaiveDateTime,
) -> (r: Result<Statement, ValidationError>)
    ensures
        match r {
            Ok(statement) => is_valid_identifier(table_name@) && statement@
                == drop_chunks_statement(table_name@, older_than),
            Err(e) => identifier_verdict(table_name@) == Err::<(), ValidationErrorView>(e@),
        },
{
    let table = match SqlIdentifier::new(table_name) {
        Ok(table) => table,
        Err(e) => {
            return Err(e);
        },
    };
    let r = Statement::new(String::from_str("SELECT drop_chunks($1, $2);")).bind_text(
        table.as_str(),
    ).bind_timestamptz(older_than);
    assert(r@.params == drop_chunks_statement(table_name@, older_than).params);
    Ok(r)
}

} // verus!
