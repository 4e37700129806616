//! Annotation set request bodies without free-form annotations.

use vstd::prelude::*;

verus! {

#[derive(Clone, Debug, PartialEq, Eq)]
pub struct CreateAnnotationSetRequest {
    pub name: String,
    pub cleanup_policy: Option<CleanupPolicyRequest>,
}

#[derive(Clone, Debug, PartialEq, Eq)]
pub struct PromoteAnnotationSetRequest {
    pub dataset_name: String,
}

#[derive(Clone, Debug, PartialEq, Eq)]
pub enum AnnotationSetItemValidationFilterRequest {
    Validated,
    Unvalidated,
}

#[derive(Clone, Debug, PartialEq, Eq, Default)]
pub struct AnnotationSetItemsFilterRequest {
    pub source_item_id: Option<String>,
    pub validation: Option<AnnotationSetItemValidationFilterRequest>,
}

#[derive(Clone, Copy, Debug, PartialEq, Eq)]
pub enum CleanupIntervalUnitRequest {
    Minutes,
    Hours,
}

#[derive(Clone, Copy, Debug, PartialEq, Eq)]
pub struct CleanupIntervalRequest {
    pub unit: CleanupIntervalUnitRequest,
    pub amount: u32,
}

#[derive(Clone, Debug, PartialEq, Eq)]
pub struct CleanupPolicyRequest {
    pub target_items: u32,
    pub time_delta: CleanupIntervalRequest,
}

#[derive(Clone, Debug, PartialEq, Eq)]
pub struct UpdateAnnotationSetCleanupPolicyRequest {
    pub policy: Option<CleanupPolicyRequest>,
}

#[derive(Clone, Debug, PartialEq, Eq, Default)]
pub struct QueryAnnotationSetItemsRequest {
    pub page: Option<u32>,
    pub per_page: Option<u32>,
    pub include_data: bool,
    pub filter: Option<AnnotationSetItemsFilterRequest>,
}

} // verus!
