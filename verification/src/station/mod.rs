//! The station API.

pub mod annotation;
pub mod dataset;
pub mod experiment;
pub mod model;
pub mod system;
pub mod upload;
