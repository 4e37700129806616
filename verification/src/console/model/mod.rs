//! Models of a console project.

pub mod response;

pub use crate::model::request;
pub use crate::model::{
    model_download_path, model_path, model_version_complete_path, model_version_path,
    model_version_ref_path, model_versions_path, models_path,
};
