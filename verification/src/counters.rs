//! The counter variants: additive counters (unsigned, signed, monotone),
//! extremum trackers (minimum, maximum), a running average and a rate
//! sampler, all built on the sharded storage folds.

pub mod average;
pub mod maximum;
pub mod minimum;
pub mod monotone;
pub mod rate;
pub mod signed;
pub mod unsigned;
