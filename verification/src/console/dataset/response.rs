//! Dataset answers that carry no free-form metadata.

use vstd::prelude::*;

verus! {

#[derive(Clone, Copy, Debug, PartialEq, Eq)]
pub enum SourceKindResponse {
    AnnotationSet,
    DirectUpload,
}

#[derive(Clone, Debug, PartialEq, Eq)]
pub struct StartedDatasetVersionUploadResponse {
    pub upload_id: String,
}

#[derive(Clone, Copy, Debug, PartialEq, Eq)]
pub enum DatasetVersionUploadItemStatusResponse {
    Inserted,
    Duplicate,
}

#[derive(Clone, Debug, PartialEq, Eq)]
pub struct DatasetVersionUploadItemOutcomeResponse {
    pub source_item_id: String,
    pub status: DatasetVersionUploadItemStatusResponse,
}

#[derive(Clone, Debug, PartialEq, Eq)]
pub struct AddDatasetVersionUploadItemsResponse {
    pub outcomes: Vec<DatasetVersionUploadItemOutcomeResponse>,
}

} // verus!
