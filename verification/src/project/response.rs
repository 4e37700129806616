//! Project answers.

use vstd::prelude::*;
use std::collections::HashMap;

verus! {

#[derive(Clone, Debug, PartialEq, Eq)]
pub struct ProjectResponse {
    pub project_name: String,
    pub namespace_name: String,
    pub namespace_type: String,
    pub description: String,
    pub created_by: String,
}

/// Project listings are returned as a bare array, not as a paginated envelope.
pub type ProjectListResponse = Vec<ProjectResponse>;

#[derive(Clone, Debug, PartialEq, Eq)]
pub struct CodeUploadUrlsResponse {
    pub id: String,
    pub digest: String,
    pub urls: Option<HashMap<String, String>>,
}

} // verus!
