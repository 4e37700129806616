//! Dataset request bodies and queries without free-form metadata.

use vstd::prelude::*;

verus! {

#[derive(Clone, Debug, PartialEq, Eq)]
pub struct DatasetMetadataPathRequest {
    pub key: String,
}

#[derive(Clone, Debug, PartialEq, Eq, Default)]
pub struct QueryDatasetVersionsRequest {
    pub page: Option<u32>,
    pub per_page: Option<u32>,
}

#[derive(Clone, Debug, PartialEq, Eq, Default)]
pub struct StreamDatasetVersionItemsRequest {
    pub cursor: Option<u64>,
    pub limit: Option<u32>,
}

} // verus!
