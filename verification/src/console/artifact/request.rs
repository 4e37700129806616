//! Bodies of the artifact upload requests.

use vstd::prelude::*;

verus! {

#[derive(Clone, Debug, PartialEq, Eq)]
pub struct ArtifactFileSpecRequest {
    pub rel_path: String,
    pub size_bytes: u64,
    pub checksum: String,
}

#[derive(Clone, Debug, PartialEq, Eq)]
pub struct CreateArtifactRequest {
    pub name: String,
    pub kind: String,
    pub files: Vec<ArtifactFileSpecRequest>,
}

#[derive(Clone, Debug, PartialEq, Eq)]
pub struct AddFilesToArtifactRequest {
    pub files: Vec<ArtifactFileSpecRequest>,
}

#[derive(Clone, Debug, PartialEq, Eq)]
pub struct CompleteUploadRequest {
    pub file_names: Option<Vec<String>>,
}

} // verus!
