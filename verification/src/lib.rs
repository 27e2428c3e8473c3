//! Sharded counters for statistics-heavy code.
//!
//! Each counter spreads its state over a fixed number of shards and
//! aggregates them on demand; the aggregation algorithms and the uniform
//! observation interface are specified and verified here.

pub mod adapters;
pub mod contatori;
pub mod counters;
pub mod observers;
pub mod snapshot;
pub mod storage;
pub mod text;
