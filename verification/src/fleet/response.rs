//! Fleet answers without free-form configuration.

use vstd::prelude::*;

verus! {

/// Presigned file descriptor used for fleet model downloads.
#[derive(Clone, Debug, PartialEq, Eq)]
pub struct FleetPresignedModelFileUrlResponse {
    /// Path relative to the model root.
    pub rel_path: String,
    /// Presigned URL from which to download file bytes.
    pub url: String,
    /// Expected file size in bytes.
    pub size_bytes: u64,
    /// Expected checksum (sha256).
    pub checksum: String,
}

/// Response containing presigned URLs for downloading model files.
#[derive(Clone, Debug, PartialEq, Eq)]
pub struct FleetModelDownloadResponse {
    /// The model version identifier.
    pub model_version_id: String,
    /// List of presigned URLs for each model file.
    pub files: Vec<FleetPresignedModelFileUrlResponse>,
}

#[derive(Clone, Debug, PartialEq, Eq)]
pub struct FleetDeviceAuthTokenResponse {
    pub access_token: String,
    pub expires_in_seconds: u64,
}

} // verus!
