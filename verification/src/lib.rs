//! Validated building blocks for TimescaleDB statements.
//!
//! Names and intervals that come from outside are turned into values that
//! can only exist if they passed validation: `SqlIdentifier` and
//! `TimeInterval`. The statement builders take those values and give back
//! finished statement text with the list of values to bind. Running a
//! statement is left to whoever holds the connection.
//!
//! Every function is verified against its contract. Two things are taken on
//! trust: that `String::push` appends the character it is given, and the
//! type `chrono::NaiveDateTime`, which is carried through without a look
//! inside.

pub mod decimal;
pub mod dsl;
pub mod prelude;
pub mod schema;
pub mod statement;
pub mod text;
pub mod types;

pub use types::TimeDimension;
pub use types::TimestampTz;
