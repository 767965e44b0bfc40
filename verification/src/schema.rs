//! Validated names and intervals, and the statements made from them.

pub mod chunks;
pub mod continuous;
pub mod error;
pub mod hypertable;
pub mod identifier;
pub mod interval;

pub use continuous::ContinuousAggregateConfig;
pub use error::ValidationError;
pub use hypertable::Hypertable;
pub use identifier::SqlIdentifier;
pub use interval::TimeInterval;
pub use interval::TimeUnit;
