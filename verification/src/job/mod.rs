//! Remote jobs: what a queue request is addressed to, and what it sends.

use vstd::prelude::*;
use crate::text::{owned, push_text};
use crate::console::job::request::ComputeProviderQueueJobRequest;

verus! {

/// Path that queues a job on a compute provider.
pub fn jobs_queue_path(owner_name: &str, project_name: &str) -> (path: String)
    ensures
        path@ == "projects/"@ + owner_name@ + "/"@ + project_name@ + "/jobs/queue"@,
{
    let mut path = owned("projects/");
    push_text(&mut path, owner_name);
    push_text(&mut path, "/");
    push_text(&mut path, project_name);
    push_text(&mut path, "/jobs/queue");
    path
}

/// The body that queues `command` of code version `digest` on a compute
/// provider group.
pub fn queue_job_request(compute_provider_group_name: &str, digest: &str, command: &str) -> (req: ComputeProviderQueueJobRequest)
    ensures
        req.compute_provider_group_name@ == compute_provider_group_name@,
        req.digest@ == digest@,
        req.command@ == command@,
{
    ComputeProviderQueueJobRequest {
        compute_provider_group_name: owned(compute_provider_group_name),
        digest: owned(digest),
        command: owned(command),
    }
}

} // verus!
