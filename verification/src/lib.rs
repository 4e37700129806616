//! Verified core of the Tracel API client: credentials, sessions, error
//! classification, the device authorization flow, request paths and the
//! wire data model.

pub mod address;
pub mod auth;
pub mod burn_central;
pub mod client;
pub mod console;
pub mod error;
pub mod experiment;
pub mod fleet;
pub mod inference;
pub mod job;
pub mod model;
pub mod project;
pub mod session;
pub mod station;
pub mod text;
pub mod timing;
pub mod transport;
pub mod user;

pub use client::Env;
pub use console::credentials;
pub use console::credentials::{SessionToken, TracelCredentials};
pub use error::{ApiErrorCode, ClientError};
