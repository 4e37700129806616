//! Bodies of the dataset requests that carry no free-form metadata.

use vstd::prelude::*;

verus! {

#[derive(Clone, Debug, PartialEq, Eq, Default)]
pub struct QueryDatasetsRequest {
    pub page: Option<u32>,
    pub per_page: Option<u32>,
}

#[derive(Clone, Debug, PartialEq, Eq, Default)]
pub struct QueryDatasetVersionsRequest {
    pub page: Option<u32>,
    pub per_page: Option<u32>,
}

} // verus!
