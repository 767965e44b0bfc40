//! The items that most callers need, in one place.

pub use crate::dsl::patterns::TimeSeriesAggregation;
pub use crate::dsl::TimescaleQueryDsl;
pub use crate::schema::ContinuousAggregateConfig;
pub use crate::schema::Hypertable;
pub use crate::types::TimeDimension;
pub use crate::types::TimestampTz;
