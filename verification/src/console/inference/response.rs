//! Inference group answers.

use vstd::prelude::*;

verus! {

/// An inference group as returned by the backend.
#[derive(Clone, Debug, PartialEq, Eq)]
pub struct InferenceGroupResponse {
    /// UUID of the inference group.
    pub id: String,
    pub name: String,
    pub description: Option<String>,
}

} // verus!
