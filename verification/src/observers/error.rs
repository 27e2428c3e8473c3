//! Error types shared by the observers.

use vstd::prelude::*;

verus! {

/// An error from the Prometheus observer.
#[derive(Debug)]
pub enum PrometheusError {
    /// A metric could not be created or registered.
    MetricError(String),
    /// Metrics could not be encoded to text form.
    EncodeError(String),
}

impl PrometheusError {
    /// The error's message, prefixed with its category.
    pub fn message(&self) -> (r: String)
        ensures
            match self {
                PrometheusError::MetricError(m) => r@ == "metric error: "@ + m@,
                PrometheusError::EncodeError(m) => r@ == "encode error: "@ + m@,
            },
    {
        match self {
            PrometheusError::MetricError(m) => {
                let mut s = ("metric error: ").to_owned();
                s.append(m.as_str());
                s
            },
            PrometheusError::EncodeError(m) => {
                let mut s = ("encode error: ").to_owned();
                s.append(m.as_str());
                s
            },
        }
    }
}

/// An error from the OpenTelemetry observer.
#[derive(Debug)]
pub enum OtelError {
    /// A metric could not be created or registered.
    MetricError(String),
}

impl OtelError {
    /// The error's message, prefixed with its category.
    pub fn message(&self) -> (r: String)
        ensures
            match self {
                OtelError::MetricError(m) => r@ == "metric error: "@ + m@,
            },
    {
        match self {
            OtelError::MetricError(m) => {
                let mut s = ("metric error: ").to_owned();
                s.append(m.as_str());
                s
            },
        }
    }
}

} // verus!
