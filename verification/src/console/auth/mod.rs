//! OAuth 2.0 Device Authorization Grant (RFC 8628) for console sessions.
//!
//! Obtains a session on a device that cannot host a browser, by having the
//! user approve a short code elsewhere.

pub mod response;

pub use crate::auth::device::{
    DevicePollOutcome, FormAnswer, PollSchedule, PollStep, code_request, form_answer_error,
    parse_bad_request_body, poll_outcome, token_request, DEVICE_CODE_GRANT, DEVICE_CODE_PATH,
    MIN_POLL_INTERVAL_SECS, SLOW_DOWN_INCREMENT_SECS, TOKEN_PATH,
};
pub use crate::auth::error::{DeviceFlowError, OAuthErrorCode, OAuthErrorResponse};
pub use crate::auth::request::{DeviceCodeRequest, DeviceTokenRequest};
pub use response::{DeviceCodeResponse, DeviceSessionResponse};
