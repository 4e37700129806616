//! Projects of the console.

pub use crate::project::{
    code_complete_path, code_upload_path, create_project_request, organization_projects_path,
    project_path, request, response, user_projects_path, USER_PROJECTS_PATH,
};
