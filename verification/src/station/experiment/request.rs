//! Experiment request bodies and queries without free-form attributes.

use vstd::prelude::*;

verus! {

#[derive(Clone, Debug, PartialEq, Eq, Default)]
pub struct ListExperimentsQuery {
    pub page: Option<u32>,
    pub per_page: Option<u32>,
}

#[derive(Clone, Debug, PartialEq, Eq)]
pub struct MetricSummaryQuery {
    pub metric: String,
}

#[derive(Clone, Debug, PartialEq, Eq)]
pub struct MetricAggregatedQuery {
    pub metric: String,
    pub max_points: i64,
    pub downsampling_factor: i64,
}

#[derive(Clone, Debug, PartialEq, Eq)]
pub struct ArtifactFileSpecRequest {
    pub rel_path: String,
    pub size_bytes: u64,
    pub checksum: String,
}

#[derive(Clone, Debug, PartialEq, Eq)]
pub struct CreateArtifactRequest {
    pub name: String,
    pub kind: String,
    pub files: Vec<ArtifactFileSpecRequest>,
}

#[derive(Clone, Debug, PartialEq, Eq)]
pub struct AddFilesRequest {
    pub files: Vec<ArtifactFileSpecRequest>,
}

#[derive(Clone, Debug, PartialEq, Eq, Default)]
pub struct CompleteUploadRequest {
    pub file_names: Option<Vec<String>>,
}

#[derive(Clone, Debug, PartialEq, Eq, Default)]
pub struct ListArtifactsQuery {
    pub name: Option<String>,
}

#[derive(Clone, Debug, PartialEq, Eq, Default)]
pub struct LogUrlsQuery {
    pub start: Option<u64>,
}

} // verus!
