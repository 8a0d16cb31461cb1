//! The typed models of the stats endpoint that this library owns itself.
//! The payload records that carry timestamps and floating-point figures live
//! with the application's deserialization layer and convert into these.

pub mod generic;
pub mod operators;
pub mod seasonal;

pub use self::generic::QueueMode;
pub use self::operators::AbilityInfo;
pub use self::seasonal::{MatchResult, Rank, Season};
