//! Answers of the device authorization endpoints, with the refresh lineage.

use vstd::prelude::*;
use crate::timing::{clamp_seconds, seconds_to_duration};
use crate::text::{owned, push_text, i64_text, signed_decimal};

pub use crate::auth::response::DeviceCodeResponse;

verus! {

/// Body of a successful `POST auth/token`.
#[derive(Clone)]
pub struct DeviceSessionResponse {
    pub session_token: String,
    /// Refresh token of the lineage the device authorization opened. A
    /// credential: never display it or write it to a log. Absent from a
    /// server that predates the refresh grant.
    pub refresh_token: Option<String>,
    /// Seconds left before the refresh lineage expires.
    pub refresh_token_expires_in: Option<i64>,
}

/// How `Debug` shows an optional number: `Some(<n>)` or `None`.
pub open spec fn debug_optional_number(n: Option<i64>) -> Seq<char> {
    match n {
        Some(v) => "Some("@ + signed_decimal(v as int) + ")"@,
        None => "None"@,
    }
}

impl DeviceSessionResponse {
    /// The text `Debug` shows for a new session: both tokens are
    /// credentials and show as `[REDACTED]`, the refresh token only as
    /// present or absent.
    pub fn debug_text(&self) -> (s: String)
        ensures
            s@ == "DeviceSessionResponse { session_token: \"[REDACTED]\", refresh_token: "@
                + (if self.refresh_token is Some { "Some(\"[REDACTED]\")"@ } else { "None"@ })
                + ", refresh_token_expires_in: "@ + debug_optional_number(self.refresh_token_expires_in)
                + " }"@,
    {
        let mut s = owned("DeviceSessionResponse { session_token: \"[REDACTED]\", refresh_token: ");
        match &self.refresh_token {
            Some(_) => push_text(&mut s, "Some(\"[REDACTED]\")"),
            None => push_text(&mut s, "None"),
        }
        push_text(&mut s, ", refresh_token_expires_in: ");
        match self.refresh_token_expires_in {
            Some(v) => {
                push_text(&mut s, "Some(");
                push_text(&mut s, i64_text(v).as_str());
                push_text(&mut s, ")");
            },
            None => push_text(&mut s, "None"),
        }
        push_text(&mut s, " }");
        s
    }

    /// Seconds left before the refresh lineage expires, when the server
    /// said; a negative count is none.
    pub fn refresh_token_expires_in(&self) -> (secs: Option<u64>)
        ensures
            match self.refresh_token_expires_in {
                Some(s) => secs == Some(clamp_seconds(s as int) as u64),
                None => secs is None,
            },
    {
        match self.refresh_token_expires_in {
            Some(s) => Some(seconds_to_duration(s)),
            None => None,
        }
    }
}

} // verus!
