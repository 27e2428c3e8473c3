//! Adapters that reinterpret the observation contract of a wrapped
//! counter: reset-on-read, never-reset, label attachment, and labeled
//! groups of named sub-counters.

pub mod group;
pub mod labeled;
pub mod non_resettable;
pub mod resettable;

pub use group::LabeledGroup;
pub use labeled::Labeled;
pub use non_resettable::NonResettable;
pub use resettable::Resettable;
