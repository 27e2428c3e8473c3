//! JSON observation collection: gathers observation entries into the
//! serializable snapshot shape.

use vstd::prelude::*;

verus! {

use crate::contatori::{label_pair_model, ObservableEntry};
use crate::snapshot::{snapshot_name, CounterSnapshot, MetricsSnapshot};

/// Configuration for the JSON observer.
pub struct JsonConfig {
    /// Whether the output is pretty-printed.
    pub pretty: bool,
    /// Whether the output carries a capture timestamp.
    pub include_timestamp: bool,
    /// Whether the counters are wrapped in a snapshot object.
    pub wrap_in_snapshot: bool,
}

impl Default for JsonConfig {
    /// Compact output, no timestamp, a bare list of counters.
    fn default() -> (r: Self)
        ensures
            r.pretty == false,
            r.include_timestamp == false,
            r.wrap_in_snapshot == false,
    {
        JsonConfig { pretty: false, include_timestamp: false, wrap_in_snapshot: false }
    }
}

/// An observer that prepares observation entries for JSON serialization.
pub struct JsonObserver {
    /// The observer's configuration.
    pub config: JsonConfig,
}

impl JsonObserver {
    /// A fresh observer with the default configuration.
    pub fn new() -> (r: JsonObserver)
        ensures
            r.config.pretty == false,
            r.config.include_timestamp == false,
            r.config.wrap_in_snapshot == false,
    {
        JsonObserver { config: JsonConfig::default() }
    }

    /// An observer with the given configuration.
    pub fn with_config(config: JsonConfig) -> (r: JsonObserver)
        ensures
            r.config == config,
    {
        JsonObserver { config }
    }

    /// Switches pretty-printing.
    pub fn pretty(self, enabled: bool) -> (r: JsonObserver)
        ensures
            r.config == (JsonConfig { pretty: enabled, ..self.config }),
    {
        JsonObserver { config: JsonConfig { pretty: enabled, ..self.config } }
    }

    /// Switches the capture timestamp; it only appears in snapshot-wrapped
    /// output.
    pub fn include_timestamp(self, enabled: bool) -> (r: JsonObserver)
        ensures
            r.config == (JsonConfig { include_timestamp: enabled, ..self.config }),
    {
        JsonObserver { config: JsonConfig { include_timestamp: enabled, ..self.config } }
    }

    /// Switches wrapping the counters in a snapshot object.
    pub fn wrap_in_snapshot(self, enabled: bool) -> (r: JsonObserver)
        ensures
            r.config == (JsonConfig { wrap_in_snapshot: enabled, ..self.config }),
    {
        JsonObserver { config: JsonConfig { wrap_in_snapshot: enabled, ..self.config } }
    }

    /// Gathers observation entries into snapshots, one per entry and in
    /// order, defaulting empty names.
    pub fn collect(&self, entries: Vec<ObservableEntry>) -> (r: Vec<CounterSnapshot>)
        ensures
            r@.len() == entries@.len(),
            forall|i: int|
                0 <= i < entries@.len() ==> {
                    &&& (#[trigger] r@[i]).name@ == snapshot_name(entries@[i].name@)
                    &&& label_pair_model(r@[i].label) == label_pair_model(entries@[i].label)
                    &&& r@[i].value == entries@[i].value
                },
    {
        let snapshot = MetricsSnapshot::collect(entries);
        snapshot.counters
    }
}

} // verus!
