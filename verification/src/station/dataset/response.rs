//! Dataset answers without free-form metadata.

use vstd::prelude::*;

verus! {

#[derive(Clone, Debug, PartialEq, Eq)]
pub enum SourceKindResponse {
    AnnotationSet,
}

#[derive(Clone, Debug, PartialEq, Eq)]
pub struct DatasetDownloadFileResponse {
    pub rel_path: String,
    pub url: String,
    pub size_bytes: u64,
    pub content_type: String,
}

#[derive(Clone, Debug, PartialEq, Eq)]
pub struct DatasetDownloadResponse {
    pub files: Vec<DatasetDownloadFileResponse>,
}

#[derive(Clone, Debug, PartialEq, Eq)]
pub struct DatasetVersionItemResponse {
    pub entry_idx: u64,
    pub payload: Vec<u8>,
}

#[derive(Clone, Debug, PartialEq, Eq)]
pub struct DatasetVersionItemsPageResponse {
    pub items: Vec<DatasetVersionItemResponse>,
    pub next_cursor: Option<u64>,
}

} // verus!
