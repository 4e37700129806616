//! Model answers that carry no free-form manifest.

use vstd::prelude::*;

verus! {

#[derive(Clone, Debug, PartialEq, Eq)]
pub struct CreatedByUserResponse {
    pub id: i32,
    pub username: String,
    pub namespace: String,
}

#[derive(Clone, Debug, PartialEq, Eq)]
pub struct ExperimentSourceResponse {
    pub id: i32,
    pub experiment_num: i32,
}

#[derive(Clone, Debug, PartialEq, Eq)]
pub struct ModelResponse {
    pub id: String,
    pub project_id: i32,
    pub name: String,
    pub description: Option<String>,
    pub created_by: CreatedByUserResponse,
    pub created_at: String,
    pub version_count: u64,
    /// The highest published version number, or `None` when the model has no
    /// versions yet.
    pub latest_version: Option<u32>,
}

#[derive(Clone, Debug, PartialEq, Eq)]
pub struct ModelListResponse {
    pub items: Vec<ModelResponse>,
    pub total: usize,
}

#[derive(Clone, Debug, PartialEq, Eq)]
pub struct ModelDownloadResponse {
    pub files: Vec<PresignedModelFileUrlResponse>,
}

#[derive(Clone, Debug, PartialEq, Eq)]
pub struct PresignedModelFileUrlResponse {
    pub rel_path: String,
    pub url: String,
    pub size_bytes: u64,
    pub checksum: String,
}

#[derive(Clone, Debug, PartialEq, Eq)]
pub struct PresignedModelFileUploadUrlsResponse {
    pub rel_path: String,
    pub urls: crate::console::artifact::response::MultipartUploadResponse,
}

#[derive(Clone, Debug, PartialEq, Eq)]
pub struct RequestModelVersionUploadResponse {
    pub version: u32,
    pub files: Vec<PresignedModelFileUploadUrlsResponse>,
}

} // verus!
