//! Models of a project: what each request is addressed to.

pub mod request;
pub mod response;

use vstd::prelude::*;
use crate::text::{pairs_view, push_pair, owned, push_text, u64_text, decimal};
use crate::address::text_of;
use crate::transport::{api_url_with_query, api_url_with_query_spec};

verus! {

/// Path of the models of a project.
pub fn models_path(namespace: &str, project_name: &str) -> (path: String)
    ensures
        path@ == "projects/"@ + namespace@ + "/"@ + project_name@ + "/models"@,
{
    let mut path = owned("projects/");
    push_text(&mut path, namespace);
    push_text(&mut path, "/");
    push_text(&mut path, project_name);
    push_text(&mut path, "/models");
    path
}

/// Path of a model.
pub fn model_path(namespace: &str, project_name: &str, model_name: &str) -> (path: String)
    ensures
        path@ == "projects/"@ + namespace@ + "/"@ + project_name@ + "/models/"@ + model_name@,
{
    let mut path = owned("projects/");
    push_text(&mut path, namespace);
    push_text(&mut path, "/");
    push_text(&mut path, project_name);
    push_text(&mut path, "/models/");
    push_text(&mut path, model_name);
    path
}

/// Path of the published versions of a model.
pub fn model_versions_path(namespace: &str, project_name: &str, model_name: &str) -> (path: String)
    ensures
        path@ == "projects/"@ + namespace@ + "/"@ + project_name@ + "/models/"@ + model_name@ + "/versions"@,
{
    let mut path = owned("projects/");
    push_text(&mut path, namespace);
    push_text(&mut path, "/");
    push_text(&mut path, project_name);
    push_text(&mut path, "/models/");
    push_text(&mut path, model_name);
    push_text(&mut path, "/versions");
    path
}

/// Path of a model version.
pub fn model_version_path(namespace: &str, project_name: &str, model_name: &str, version: u32) -> (path: String)
    ensures
        path@ == "projects/"@ + namespace@ + "/"@ + project_name@ + "/models/"@ + model_name@ + "/versions/"@ + decimal(version as nat),
{
    let mut path = owned("projects/");
    push_text(&mut path, namespace);
    push_text(&mut path, "/");
    push_text(&mut path, project_name);
    push_text(&mut path, "/models/");
    push_text(&mut path, model_name);
    push_text(&mut path, "/versions/");
    let digits = u64_text(version as u64);
    push_text(&mut path, digits.as_str());
    path
}

/// Path that resolves `latest`, a version number (`7` or `v7`) or an alias.
pub fn model_version_ref_path(namespace: &str, project_name: &str, model_name: &str, reference: &str) -> (path: String)
    ensures
        path@ == "projects/"@ + namespace@ + "/"@ + project_name@ + "/models/"@ + model_name@ + "/refs/"@ + reference@,
{
    let mut path = owned("projects/");
    push_text(&mut path, namespace);
    push_text(&mut path, "/");
    push_text(&mut path, project_name);
    push_text(&mut path, "/models/");
    push_text(&mut path, model_name);
    push_text(&mut path, "/refs/");
    push_text(&mut path, reference);
    path
}

/// Path that presigns the download of a model version.
pub fn model_download_path(namespace: &str, project_name: &str, model_name: &str, version: u32) -> (path: String)
    ensures
        path@ == "projects/"@ + namespace@ + "/"@ + project_name@ + "/models/"@ + model_name@ + "/versions/"@ + decimal(version as nat) + "/download"@,
{
    let mut path = owned("projects/");
    push_text(&mut path, namespace);
    push_text(&mut path, "/");
    push_text(&mut path, project_name);
    push_text(&mut path, "/models/");
    push_text(&mut path, model_name);
    push_text(&mut path, "/versions/");
    let digits = u64_text(version as u64);
    push_text(&mut path, digits.as_str());
    push_text(&mut path, "/download");
    path
}

/// Path that completes the upload of a model version.
pub fn model_version_complete_path(namespace: &str, project_name: &str, model_name: &str, version: u32) -> (path: String)
    ensures
        path@ == "projects/"@ + namespace@ + "/"@ + project_name@ + "/models/"@ + model_name@ + "/versions/"@ + decimal(version as nat) + "/complete"@,
{
    let mut path = owned("projects/");
    push_text(&mut path, namespace);
    push_text(&mut path, "/");
    push_text(&mut path, project_name);
    push_text(&mut path, "/models/");
    push_text(&mut path, model_name);
    push_text(&mut path, "/versions/");
    let digits = u64_text(version as u64);
    push_text(&mut path, digits.as_str());
    push_text(&mut path, "/complete");
    path
}

/// The query that presigns a download of a model version imported from
/// another project: the project the files come from.
pub fn import_download_query(source_namespace: &str, source_project_name: &str) -> (pairs: Vec<(String, String)>)
    ensures
        pairs_view(pairs@) == seq![("owner_name"@, source_namespace@), ("project_name"@, source_project_name@)],
{
    let mut pairs: Vec<(String, String)> = Vec::new();
    assert(pairs_view(pairs@) =~= Seq::empty());
    push_pair(&mut pairs, "owner_name", owned(source_namespace));
    push_pair(&mut pairs, "project_name", owned(source_project_name));
    assert(pairs_view(pairs@) =~= seq![("owner_name"@, source_namespace@), ("project_name"@, source_project_name@)]);
    pairs
}

/// The URL that presigns the download of a model version imported from
/// another project, that project named in the query.
pub fn import_download_url(
    base: &str,
    namespace: &str,
    project_name: &str,
    model_name: &str,
    version: u32,
    source_namespace: &str,
    source_project_name: &str,
) -> (r: Option<String>)
    ensures
        text_of(r) == api_url_with_query_spec(
            base@,
            "projects/"@ + namespace@ + "/"@ + project_name@ + "/models/"@ + model_name@ + "/versions/"@
                + decimal(version as nat) + "/download"@,
            seq![("owner_name"@, source_namespace@), ("project_name"@, source_project_name@)],
        ),
{
    let path = model_download_path(namespace, project_name, model_name, version);
    api_url_with_query(base, path.as_str(), &import_download_query(source_namespace, source_project_name))
}

} // verus!
