//! Observers: consumers of the observation interface that turn counter
//! snapshots into external representations.

pub mod error;
pub mod json;
pub mod opentelemetry;
pub mod prometheus;
pub mod table;
