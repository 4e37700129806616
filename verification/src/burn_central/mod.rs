//! The first client, for the Burn Central deployment.

pub mod client;
pub mod websocket;
