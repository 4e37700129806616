//! Projects: what each request is addressed to, and what it sends.

pub mod request;
pub mod response;

use vstd::prelude::*;
use crate::text::{owned, push_text};
use request::CreateProjectRequest;

verus! {

/// Path of the projects of the authenticated user.
pub const USER_PROJECTS_PATH: &'static str = "user/projects";

/// Path of a project.
pub fn project_path(owner_name: &str, project_name: &str) -> (path: String)
    ensures
        path@ == "projects/"@ + owner_name@ + "/"@ + project_name@,
{
    let mut path = owned("projects/");
    push_text(&mut path, owner_name);
    push_text(&mut path, "/");
    push_text(&mut path, project_name);
    path
}

/// Path of the projects of a user namespace.
pub fn user_projects_path(owner_name: &str) -> (path: String)
    ensures
        path@ == "users/"@ + owner_name@ + "/projects"@,
{
    let mut path = owned("users/");
    push_text(&mut path, owner_name);
    push_text(&mut path, "/projects");
    path
}

/// Path of the projects of an organization namespace.
pub fn organization_projects_path(owner_name: &str) -> (path: String)
    ensures
        path@ == "organizations/"@ + owner_name@ + "/projects"@,
{
    let mut path = owned("organizations/");
    push_text(&mut path, owner_name);
    push_text(&mut path, "/projects");
    path
}

/// Path that requests presigned upload URLs for a new code version.
pub fn code_upload_path(owner_name: &str, project_name: &str) -> (path: String)
    ensures
        path@ == "projects/"@ + owner_name@ + "/"@ + project_name@ + "/code/upload"@,
{
    let mut path = owned("projects/");
    push_text(&mut path, owner_name);
    push_text(&mut path, "/");
    push_text(&mut path, project_name);
    push_text(&mut path, "/code/upload");
    path
}

/// Path that completes the upload of a code version.
pub fn code_complete_path(owner_name: &str, project_name: &str, code_version_id: &str) -> (path: String)
    ensures
        path@ == "projects/"@ + owner_name@ + "/"@ + project_name@ + "/code/"@ + code_version_id@ + "/complete"@,
{
    let mut path = owned("projects/");
    push_text(&mut path, owner_name);
    push_text(&mut path, "/");
    push_text(&mut path, project_name);
    push_text(&mut path, "/code/");
    push_text(&mut path, code_version_id);
    push_text(&mut path, "/complete");
    path
}

/// The body that creates a project named `project_name`.
pub fn create_project_request(project_name: &str, project_description: Option<&str>) -> (req: CreateProjectRequest)
    ensures
        req.name@ == project_name@,
        match project_description {
            Some(d) => req.description matches Some(rd) && rd@ == d@,
            None => req.description is None,
        },
{
    CreateProjectRequest {
        name: owned(project_name),
        description: match project_description {
            Some(d) => Some(owned(d)),
            None => None,
        },
    }
}

} // verus!
