//! Messages of the experiment WebSocket that carry no measurement or free-form value.

use vstd::prelude::*;

verus! {

#[derive(Clone, Debug, PartialEq, Eq)]
pub struct ActivityMeterRequest {
    pub unit: Option<String>,
    pub total: Option<u64>,
}

#[derive(Clone, Debug, PartialEq, Eq)]
pub enum ActivityStatusRequest {
    Success,
    Abandoned,
    Failed,
}

#[derive(Clone, Debug, PartialEq, Eq)]
pub enum InputUsed {
    Artifact { artifact_id: String },
    Model { model_version_id: String },
}

#[derive(Clone, Debug, PartialEq, Eq)]
pub enum ExperimentCompletion {
    Success,
    Fail { reason: String },
}

/// Severity of a [`LogEntry`], serialized as its lowercase name.
#[derive(Clone, Copy, Debug, PartialEq, Eq)]
pub enum LogEntryLevel {
    Trace,
    Debug,
    Info,
    Warn,
    Error,
}

#[derive(Clone, Debug, PartialEq, Eq)]
pub enum ServerMessage {
    CancelRequested,
    ActivityCancelRequested { id: u64 },
}

} // verus!
