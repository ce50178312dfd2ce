//! Read-only query core of a vessel position-report service.
//!
//! The library decides what the service asks of its document store and what it
//! answers: the lookup filter for one vessel, the aggregation pipeline for the
//! fleet snapshot, the replies of the three routes, and the selection of the
//! latest report per vessel that the fleet snapshot returns.
pub mod config;
pub mod fleet;
pub mod query;
pub mod reply;
pub mod report;
