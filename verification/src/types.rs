//! Timestamps as the database exchanges them.
//!
//! A point in time is held as a `chrono::NaiveDateTime` that is read in UTC.
//! This library never looks inside one: it only carries the value to where it
//! is bound to a statement.

use vstd::prelude::*;
use vstd::std_specs::convert::FromSpecImpl;
use chrono::NaiveDateTime;

verus! {

/// `chrono::NaiveDateTime`, known here by name only: nothing is claimed of
/// what a value holds.
#[verifier::external_type_specification]
#[verifier::external_body]
pub struct ExNaiveDateTime(chrono::NaiveDateTime);

/// A timestamp with time zone, as a column of a time series holds it: a date
/// and time of day in UTC.
#[derive(Debug, Clone, Copy, PartialEq, Eq, PartialOrd, Ord)]
pub struct TimestampTz(pub NaiveDateTime);

impl TimestampTz {
    /// Wraps a point in time, given in UTC.
    pub fn new(dt: NaiveDateTime) -> (r: Self)
        ensures
            r.0 == dt,
    {
        Self(dt)
    }

    /// The point in time that is wrapped, in UTC.
    pub fn inner(&self) -> (r: &NaiveDateTime)
        ensures
            *r == self.0,
    {
        &self.0
    }
}

impl From<NaiveDateTime> for TimestampTz {
    fn from(dt: NaiveDateTime) -> (r: Self) {
        Self(dt)
    }
}

impl FromSpecImpl<NaiveDateTime> for TimestampTz {
    open spec fn obeys_from_spec() -> bool {
        true
    }

    open spec fn from_spec(dt: NaiveDateTime) -> Self {
        TimestampTz(dt)
    }
}

impl From<TimestampTz> for NaiveDateTime {
    fn from(ts: TimestampTz) -> (r: Self) {
        ts.0
    }
}

impl FromSpecImpl<TimestampTz> for NaiveDateTime {
    open spec fn obeys_from_spec() -> bool {
        true
    }

    open spec fn from_spec(ts: TimestampTz) -> Self {
        ts.0
    }
}

/// A value that can serve as the time dimension of a time series.
pub trait TimeDimension {
    /// The type under which the database takes the value.
    type SqlType;

    /// The value in the form in which it is handed to the database.
    fn to_sql_value(&self) -> Self::SqlType;
}

impl TimeDimension for TimestampTz {
    type SqlType = NaiveDateTime;

    fn to_sql_value(&self) -> (r: NaiveDateTime)
        ensures
            r == self.0,
    {
        self.0
    }
}

impl TimeDimension for NaiveDateTime {
    type SqlType = NaiveDateTime;

    fn to_sql_value(&self) -> (r: NaiveDateTime)
        ensures
            r == *self,
    {
        *self
    }
}

} // verus!
