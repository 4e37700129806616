//! Answers of the device authorization endpoints.

use vstd::prelude::*;
use crate::timing::{clamp_seconds, seconds_to_duration};
use crate::text::{owned, push_text, i64_text, signed_decimal, debug_quoted, debug_str_text};

verus! {

/// A pending device authorization (RFC 8628 section 3.2).
#[derive(Clone)]
pub struct DeviceCodeResponse {
    /// Opaque code the client polls the token endpoint with. A credential:
    /// never display it or write it to a log.
    pub device_code: String,
    /// Short code the user types on the verification page, e.g. `BCDF-GHJK`.
    pub user_code: String,
    /// Page the user opens to approve the request.
    pub verification_uri: String,
    /// The verification page with the user code already filled in.
    pub verification_uri_complete: String,
    /// Lifetime of the device code and user code, in seconds.
    pub expires_in: i64,
    /// Minimum number of seconds between two polls.
    pub interval: i64,
}

impl DeviceCodeResponse {
    /// Lifetime of the device code, in seconds; a negative lifetime counts
    /// as none.
    pub fn expires_in(&self) -> (secs: u64)
        ensures
            secs == clamp_seconds(self.expires_in as int),
    {
        seconds_to_duration(self.expires_in)
    }

    /// Minimum delay between two polls, in seconds; a negative interval
    /// counts as none.
    pub fn interval(&self) -> (secs: u64)
        ensures
            secs == clamp_seconds(self.interval as int),
    {
        seconds_to_duration(self.interval)
    }
}

impl DeviceCodeResponse {
    /// The text `Debug` shows for a pending authorization: every field but
    /// the device code, which is a bearer credential for the whole flow and
    /// shows as `[REDACTED]`.
    pub fn debug_text(&self) -> (s: String)
        ensures
            s@ == "DeviceCodeResponse { device_code: \"[REDACTED]\", user_code: "@
                + debug_quoted(self.user_code@)
                + ", verification_uri: "@ + debug_quoted(self.verification_uri@)
                + ", verification_uri_complete: "@ + debug_quoted(self.verification_uri_complete@)
                + ", expires_in: "@ + signed_decimal(self.expires_in as int)
                + ", interval: "@ + signed_decimal(self.interval as int) + " }"@,
    {
        let mut s = owned("DeviceCodeResponse { device_code: \"[REDACTED]\", user_code: ");
        push_text(&mut s, debug_str_text(self.user_code.as_str()).as_str());
        push_text(&mut s, ", verification_uri: ");
        push_text(&mut s, debug_str_text(self.verification_uri.as_str()).as_str());
        push_text(&mut s, ", verification_uri_complete: ");
        push_text(&mut s, debug_str_text(self.verification_uri_complete.as_str()).as_str());
        push_text(&mut s, ", expires_in: ");
        push_text(&mut s, i64_text(self.expires_in).as_str());
        push_text(&mut s, ", interval: ");
        push_text(&mut s, i64_text(self.interval).as_str());
        push_text(&mut s, " }");
        s
    }
}

/// Body of a successful `POST auth/token`.
#[derive(Clone)]
pub struct DeviceSessionResponse {
    pub session_token: String,
}

} // verus!
