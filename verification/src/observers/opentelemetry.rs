//! OpenTelemetry-oriented observation: meter naming, instrument
//! descriptions, and the attribute shape handed to a metrics pipeline.

use vstd::prelude::*;

verus! {

use crate::contatori::{label_pair_model, ObservableEntry};

/// An observer that prepares counters for an OpenTelemetry-style metrics
/// pipeline: it names the meter and derives instrument descriptions.
pub struct OtelObserver {
    /// The meter name, typically the application or library name.
    pub meter_name: &'static str,
    /// An optional prefix for instrument descriptions.
    pub description_prefix: Option<String>,
}

impl OtelObserver {
    /// A fresh observer for the given meter name.
    pub fn new(meter_name: &'static str) -> (r: OtelObserver)
        ensures
            r.meter_name@ == meter_name@,
            r.description_prefix == Option::<String>::None,
    {
        OtelObserver { meter_name, description_prefix: None }
    }

    /// Sets a prefix prepended to every instrument description.
    pub fn with_description_prefix(self, prefix: &str) -> (r: OtelObserver)
        ensures
            r.meter_name@ == self.meter_name@,
            (r.description_prefix matches Some(p) && p@ == prefix@),
    {
        OtelObserver { description_prefix: Some(prefix.to_owned()), ..self }
    }

    /// The description of one instrument: the prefix and the name joined
    /// by a colon, or the name followed by ` metric`.
    pub fn build_description(&self, name: &str) -> (r: String)
        ensures
            match self.description_prefix {
                Some(ref p) => r@ == p@ + ": "@ + name@,
                None => r@ == name@ + " metric"@,
            },
    {
        match &self.description_prefix {
            Some(prefix) => {
                let mut s = prefix.clone();
                s.append(": ");
                s.append(name);
                s
            },
            None => {
                let mut s = name.to_owned();
                s.append(" metric");
                s
            },
        }
    }
}

/// The attributes of one observation entry: its label pair, if any.
pub fn entry_to_attributes(entry: &ObservableEntry) -> (r: Vec<(String, String)>)
    ensures
        match label_pair_model(entry.label) {
            Some(kv) => r@.len() == 1 && r@[0].0@ == kv.0 && r@[0].1@ == kv.1,
            None => r@.len() == 0,
        },
{
    match &entry.label {
        Some(kv) => {
            let mut r: Vec<(String, String)> = Vec::new();
            r.push((kv.0.clone(), kv.1.clone()));
            r
        },
        None => Vec::new(),
    }
}

} // verus!
