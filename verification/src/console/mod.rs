//! The console API: projects, models, datasets and users of a Tracel
//! deployment.

pub mod artifact;
pub mod auth;
pub mod credentials;
pub mod dataset;
pub mod inference;
pub mod job;
pub mod model;
pub mod project;
pub mod session;
pub mod user;

pub use crate::client::Env;
pub use credentials::{SessionToken, TracelCredentials};
