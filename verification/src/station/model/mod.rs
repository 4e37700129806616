//! Models of a station: what each request is addressed to.

pub mod request;
pub mod response;

use vstd::prelude::*;
use crate::text::{owned, push_text, u64_text, decimal};

verus! {

/// Path of the model collection.
pub const MODELS_PATH: &'static str = "models";

/// Path of a model.
pub fn model_path(model_name: &str) -> (path: String)
    ensures
        path@ == "models/"@ + model_name@,
{
    let mut path = owned("models/");
    push_text(&mut path, model_name);
    path
}

/// Path of the versions of a model.
pub fn model_versions_path(model_name: &str) -> (path: String)
    ensures
        path@ == "models/"@ + model_name@ + "/versions"@,
{
    let mut path = owned("models/");
    push_text(&mut path, model_name);
    push_text(&mut path, "/versions");
    path
}

/// Path that completes the upload of a model version.
pub fn model_version_complete_path(model_name: &str, version: u32) -> (path: String)
    ensures
        path@ == "models/"@ + model_name@ + "/versions/"@ + decimal(version as nat) + "/complete"@,
{
    let mut path = owned("models/");
    push_text(&mut path, model_name);
    push_text(&mut path, "/versions/");
    let digits = u64_text(version as u64);
    push_text(&mut path, digits.as_str());
    push_text(&mut path, "/complete");
    path
}

/// Path of a model version.
pub fn model_version_path(model_name: &str, version: u32) -> (path: String)
    ensures
        path@ == "models/"@ + model_name@ + "/versions/"@ + decimal(version as nat),
{
    let mut path = owned("models/");
    push_text(&mut path, model_name);
    push_text(&mut path, "/versions/");
    let digits = u64_text(version as u64);
    push_text(&mut path, digits.as_str());
    path
}

/// Path that presigns the download of a model version.
pub fn model_download_path(model_name: &str, version: u32) -> (path: String)
    ensures
        path@ == "models/"@ + model_name@ + "/versions/"@ + decimal(version as nat) + "/download"@,
{
    let mut path = owned("models/");
    push_text(&mut path, model_name);
    push_text(&mut path, "/versions/");
    let digits = u64_text(version as u64);
    push_text(&mut path, digits.as_str());
    push_text(&mut path, "/download");
    path
}

} // verus!
