//! Inference group request bodies without measurements.

use vstd::prelude::*;

verus! {

/// Request body to create an inference group in a project.
#[derive(Clone, Debug, PartialEq, Eq)]
pub struct CreateInferenceGroupRequest {
    /// Must be URL-safe (no spaces or special characters).
    pub name: String,
    pub description: Option<String>,
}

/// Kind of a metric, used in metric descriptors.
#[derive(Clone, Debug, PartialEq, Eq)]
pub enum MetricKind {
    Gauge,
    Counter,
    Histogram,
}

/// Optional descriptor attached to a metric name (unit, description, kind).
#[derive(Clone, Debug, PartialEq, Eq)]
pub struct MetricDescriptorEvent {
    pub name: String,
    pub kind: MetricKind,
    pub unit: Option<String>,
    pub description: Option<String>,
}

/// Severity of an ingested log line.
#[derive(Clone, Debug, PartialEq, Eq)]
pub enum LogLevel {
    Trace,
    Debug,
    Info,
    Warn,
    Error,
}

} // verus!
