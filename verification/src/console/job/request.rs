//! Body of a remote job request.

use vstd::prelude::*;

verus! {

#[derive(Clone, Debug, PartialEq, Eq)]
pub struct ComputeProviderQueueJobRequest {
    pub compute_provider_group_name: String,
    pub digest: String,
    pub command: String,
}

} // verus!
