//! Messages of the experiment WebSocket, in their first protocol version.

use vstd::prelude::*;

verus! {

#[derive(Clone, Debug, PartialEq, Eq)]
pub struct ActivityMeterRequest {
    pub unit: Option<String>,
    pub total: Option<u64>,
}

#[derive(Clone, Debug, PartialEq, Eq)]
pub enum ActivityStatusRequest {
    Success,
    Abandoned,
}

#[derive(Clone, Debug, PartialEq, Eq)]
pub enum InputUsed {
    Artifact { artifact_id: String },
    Model { model_version_id: String },
}

#[derive(Clone, Debug, PartialEq, Eq)]
pub enum ExperimentCompletion {
    Success,
    Fail { reason: String },
}

#[derive(Clone, Debug, PartialEq, Eq)]
pub enum ServerMessage {
    CancelRequested,
}

} // verus!
