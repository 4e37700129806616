//! Experiment answers without measurements or free-form values.

use vstd::prelude::*;

verus! {

#[derive(Clone, Debug, PartialEq, Eq)]
pub enum ExperimentInputResponse {
    Artifact { artifact_id: String },
    Model { model_version_id: String },
}

#[derive(Clone, Debug, PartialEq, Eq)]
pub struct MetricMetadataResponse {
    pub metric_types: Vec<String>,
    pub groups: Vec<String>,
}

#[derive(Clone, Debug, PartialEq, Eq)]
pub struct PresignedUploadUrlResponse {
    pub part: u32,
    pub url: String,
    pub size_bytes: u64,
}

#[derive(Clone, Debug, PartialEq, Eq)]
pub struct MultipartUploadResponse {
    pub id: String,
    pub parts: Vec<PresignedUploadUrlResponse>,
}

#[derive(Clone, Debug, PartialEq, Eq)]
pub struct PresignedArtifactFileUploadUrlsResponse {
    pub rel_path: String,
    pub urls: MultipartUploadResponse,
}

#[derive(Clone, Debug, PartialEq, Eq)]
pub struct ArtifactCreationResponse {
    pub id: String,
    pub files: Vec<PresignedArtifactFileUploadUrlsResponse>,
}

#[derive(Clone, Debug, PartialEq, Eq)]
pub struct PresignedArtifactFileUrlResponse {
    pub rel_path: String,
    pub url: String,
}

#[derive(Clone, Debug, PartialEq, Eq)]
pub struct ArtifactDownloadResponse {
    pub files: Vec<PresignedArtifactFileUrlResponse>,
}

#[derive(Clone, Debug, PartialEq, Eq)]
pub struct DeleteExperimentArtifactResponse {
    pub id: String,
    pub size: u64,
}

#[derive(Clone, Debug, PartialEq, Eq)]
pub struct ExperimentLogResponse {
    pub running: bool,
    pub logs: Vec<String>,
}

#[derive(Clone, Debug, PartialEq, Eq)]
pub struct LoadLogUrlResponse {
    pub url: String,
    pub size_header: String,
}

#[derive(Clone, Debug, PartialEq, Eq)]
pub struct LoadLogUrlsResponse {
    pub urls: Vec<LoadLogUrlResponse>,
    pub size: u64,
}

} // verus!
