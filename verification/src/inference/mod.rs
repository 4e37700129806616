//! Inference groups: what each request is addressed to.

pub mod request;

use vstd::prelude::*;
use crate::text::{owned, push_text};

verus! {

/// Path of the inference groups of a project.
pub fn inference_groups_path(owner_name: &str, project_name: &str) -> (path: String)
    ensures
        path@ == "projects/"@ + owner_name@ + "/"@ + project_name@ + "/inference-groups"@,
{
    let mut path = owned("projects/");
    push_text(&mut path, owner_name);
    push_text(&mut path, "/");
    push_text(&mut path, project_name);
    push_text(&mut path, "/inference-groups");
    path
}

/// Path of an inference group.
pub fn inference_group_path(owner_name: &str, project_name: &str, inference_group_name: &str) -> (path: String)
    ensures
        path@ == "projects/"@ + owner_name@ + "/"@ + project_name@ + "/inference-groups/"@ + inference_group_name@,
{
    let mut path = owned("projects/");
    push_text(&mut path, owner_name);
    push_text(&mut path, "/");
    push_text(&mut path, project_name);
    push_text(&mut path, "/inference-groups/");
    push_text(&mut path, inference_group_name);
    path
}

/// Path that ingests telemetry into an inference group.
pub fn telemetry_path(owner_name: &str, project_name: &str, inference_group_name: &str) -> (path: String)
    ensures
        path@ == "projects/"@ + owner_name@ + "/"@ + project_name@ + "/inference-groups/"@ + inference_group_name@ + "/telemetry"@,
{
    let mut path = owned("projects/");
    push_text(&mut path, owner_name);
    push_text(&mut path, "/");
    push_text(&mut path, project_name);
    push_text(&mut path, "/inference-groups/");
    push_text(&mut path, inference_group_name);
    push_text(&mut path, "/telemetry");
    path
}

} // verus!
