//! Collect _all_ the errors from a sequence of fallible outcomes.
//!
//! Given a finite sequence of outcomes, each either a success value or
//! the display text of an error, the collector produces one aggregate
//! result: a container of every success value when nothing failed, or
//! one combined error whose message is every failure's text on its own
//! line, in input order. The whole sequence is always consumed: unlike
//! fail-fast aggregation, every failure is reported, not only the first.

pub mod collector;
pub mod join;
pub mod laws;
pub mod outcome;

pub use collector::BeauCollector;
pub use collector::collect_all;
pub use collector::partition_outcomes;
pub use outcome::AggregateResult;
pub use outcome::AggregatedFailure;
pub use outcome::Outcome;
