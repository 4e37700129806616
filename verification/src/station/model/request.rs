//! Model request bodies.

use vstd::prelude::*;

verus! {

#[derive(Clone, Debug, PartialEq, Eq)]
pub struct CreateModelRequest {
    pub name: String,
    pub description: Option<String>,
}

#[derive(Clone, Debug, PartialEq, Eq)]
pub struct UploadModelVersionRequest {
    pub files: Vec<UploadModelFileSpecRequest>,
}

#[derive(Clone, Debug, PartialEq, Eq)]
pub struct UploadModelFileSpecRequest {
    pub rel_path: String,
    pub size_bytes: u64,
    pub checksum: String,
}

} // verus!
