//! OAuth 2.0 Device Authorization Grant (RFC 8628).
//!
//! Lets a device that cannot host a browser obtain a session by asking the
//! user to approve a short code on another device.

pub mod device;
pub mod error;
pub mod request;
pub mod response;

pub use device::{DevicePollOutcome, PollSchedule, PollStep};
pub use error::{DeviceFlowError, OAuthErrorCode, OAuthErrorResponse};
pub use response::{DeviceCodeResponse, DeviceSessionResponse};
