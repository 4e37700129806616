//! Annotation set answers without free-form annotations.

use vstd::prelude::*;

verus! {

#[derive(Clone, Copy, Debug, PartialEq, Eq)]
pub enum CleanupIntervalUnitResponse {
    Minutes,
    Hours,
}

#[derive(Clone, Copy, Debug, PartialEq, Eq)]
pub struct CleanupIntervalResponse {
    pub unit: CleanupIntervalUnitResponse,
    pub amount: u32,
}

#[derive(Clone, Debug, PartialEq, Eq)]
pub struct CleanupPolicyResponse {
    pub target_items: u32,
    pub time_delta: CleanupIntervalResponse,
}

#[derive(Clone, Debug, PartialEq, Eq)]
pub struct AnnotationSetResponse {
    pub id: String,
    pub name: String,
    pub cleanup_policy: Option<CleanupPolicyResponse>,
}

#[derive(Clone, Debug, PartialEq, Eq)]
pub struct PromotedDatasetVersionResponse {
    pub id: String,
    pub version: i32,
}

} // verus!
