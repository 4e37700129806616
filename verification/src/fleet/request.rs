//! Fleet request bodies without measurements or free-form metadata.

use vstd::prelude::*;

verus! {

/// Request to download model files.
#[derive(Clone, Debug, PartialEq, Eq)]
pub struct DownloadModelRequest {}

/// Kind of metric (gauge, counter, histogram).
#[derive(Clone, Debug, PartialEq, Eq)]
pub enum MetricKind {
    Gauge,
    Counter,
    Histogram,
}

/// Optional metadata/descriptor attached to a metric name.
#[derive(Clone, Debug, PartialEq, Eq)]
pub struct MetricDescriptorIngestionEvent {
    pub name: String,
    pub kind: MetricKind,
    pub unit: Option<String>,
    pub description: Option<String>,
}

} // verus!
