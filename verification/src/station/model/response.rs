//! Model answers without free-form metadata.

use vstd::prelude::*;
pub use crate::station::upload::PresignedUploadUrlResponse;

verus! {

#[derive(Clone, Debug, PartialEq, Eq)]
pub struct ModelResponse {
    pub id: String,
    pub name: String,
    pub description: Option<String>,
    pub created_at: String,
    pub version_count: u64,
    pub latest_version: Option<u32>,
}

#[derive(Clone, Debug, PartialEq, Eq)]
pub struct ExperimentSourceResponse {
    pub id: i32,
    pub experiment_num: i32,
}

/// Only a ready version is listed by default, downloadable, `latest` or an alias target.
#[derive(Clone, Copy, Debug, PartialEq, Eq)]
pub enum ModelVersionStateResponse {
    Pending,
    Ready,
    Failed,
    Deleted,
}

#[derive(Clone, Copy, Debug, PartialEq, Eq)]
pub enum ModelVersionSourceKindResponse {
    Upload,
    Promotion,
}

#[derive(Clone, Debug, PartialEq, Eq)]
pub struct ModelVersionManifestResponse {
    pub files: Vec<FileDescriptorResponse>,
}

#[derive(Clone, Debug, PartialEq, Eq)]
pub struct FileDescriptorResponse {
    pub rel_path: String,
    pub size_bytes: u64,
    pub checksum: String,
}

#[derive(Clone, Debug, PartialEq, Eq)]
pub struct ModelListResponse {
    pub items: Vec<ModelResponse>,
    pub total: usize,
}

#[derive(Clone, Debug, PartialEq, Eq)]
pub struct PresignedModelFileUrlResponse {
    pub rel_path: String,
    pub url: String,
    pub size_bytes: u64,
    pub checksum: String,
}

#[derive(Clone, Debug, PartialEq, Eq)]
pub struct ModelDownloadResponse {
    pub files: Vec<PresignedModelFileUrlResponse>,
}

#[derive(Clone, Debug, PartialEq, Eq)]
pub struct UploadModelResponse {
    pub version: u32,
    pub files: Vec<PresignedModelFileUploadUrlsResponse>,
}

#[derive(Clone, Debug, PartialEq, Eq)]
pub struct PresignedModelFileUploadUrlsResponse {
    pub rel_path: String,
    pub parts: Vec<PresignedUploadUrlResponse>,
}

} // verus!
