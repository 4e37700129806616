//! Errors of the device authorization flow.

use vstd::prelude::*;
use crate::error::ClientError;
use crate::text::{owned, push_text, decimal, u64_text};

verus! {

/// OAuth 2.0 error code returned by the device authorization endpoints.
#[derive(Clone, Copy, Debug, PartialEq, Eq)]
#[non_exhaustive]
pub enum OAuthErrorCode {
    /// The user rejected the request.
    AccessDenied,
    /// The user has not answered yet.
    AuthorizationPending,
    /// The device code is unknown, spent, or past its lifetime.
    ExpiredToken,
    /// The request was malformed or incomplete.
    InvalidRequest,
    /// The client polled faster than its interval.
    SlowDown,
    /// The token endpoint does not support the `grant_type`.
    UnsupportedGrantType,
    /// Any code this client does not know.
    Unknown,
}

/// The snake-case name of a code, as the server writes it.
pub open spec fn oauth_code_name(code: OAuthErrorCode) -> Seq<char> {
    match code {
        OAuthErrorCode::AccessDenied => "access_denied"@,
        OAuthErrorCode::AuthorizationPending => "authorization_pending"@,
        OAuthErrorCode::ExpiredToken => "expired_token"@,
        OAuthErrorCode::InvalidRequest => "invalid_request"@,
        OAuthErrorCode::SlowDown => "slow_down"@,
        OAuthErrorCode::UnsupportedGrantType => "unsupported_grant_type"@,
        OAuthErrorCode::Unknown => "unknown"@,
    }
}

/// The code a name stands for: the code of that name, or `Unknown` for a
/// name no code has.
pub open spec fn oauth_code_of_name(name: Seq<char>) -> OAuthErrorCode {
    if name == "access_denied"@ {
        OAuthErrorCode::AccessDenied
    } else if name == "authorization_pending"@ {
        OAuthErrorCode::AuthorizationPending
    } else if name == "expired_token"@ {
        OAuthErrorCode::ExpiredToken
    } else if name == "invalid_request"@ {
        OAuthErrorCode::InvalidRequest
    } else if name == "slow_down"@ {
        OAuthErrorCode::SlowDown
    } else if name == "unsupported_grant_type"@ {
        OAuthErrorCode::UnsupportedGrantType
    } else {
        OAuthErrorCode::Unknown
    }
}

/// Whether `name` is one the server writes for a code this client knows:
/// the snake-case names of the OAuth device flow errors.
pub open spec fn is_known_code_name(name: Seq<char>) -> bool {
    ||| name == "access_denied"@
    ||| name == "authorization_pending"@
    ||| name == "expired_token"@
    ||| name == "invalid_request"@
    ||| name == "slow_down"@
    ||| name == "unsupported_grant_type"@
}

impl OAuthErrorCode {
    /// The snake-case name of this code.
    pub fn name(&self) -> (s: String)
        ensures
            s@ == oauth_code_name(*self),
            *self != OAuthErrorCode::Unknown <==> is_known_code_name(s@),
    {
        proof {
            lemma_code_name_is_its_wire_name(*self);
        }
        match self {
            OAuthErrorCode::AccessDenied => owned("access_denied"),
            OAuthErrorCode::AuthorizationPending => owned("authorization_pending"),
            OAuthErrorCode::ExpiredToken => owned("expired_token"),
            OAuthErrorCode::InvalidRequest => owned("invalid_request"),
            OAuthErrorCode::SlowDown => owned("slow_down"),
            OAuthErrorCode::UnsupportedGrantType => owned("unsupported_grant_type"),
            OAuthErrorCode::Unknown => owned("unknown"),
        }
    }

    /// The code the server means by `name`.
    pub fn from_name(name: &str) -> (code: Self)
        ensures
            code == oauth_code_of_name(name@),
            code == OAuthErrorCode::Unknown <==> !is_known_code_name(name@),
            code != OAuthErrorCode::Unknown ==> oauth_code_name(code) == name@,
    {
        proof {
            lemma_known_code_names(name@);
        }
        if crate::transport::same_text(name, "access_denied") {
            OAuthErrorCode::AccessDenied
        } else if crate::transport::same_text(name, "authorization_pending") {
            OAuthErrorCode::AuthorizationPending
        } else if crate::transport::same_text(name, "expired_token") {
            OAuthErrorCode::ExpiredToken
        } else if crate::transport::same_text(name, "invalid_request") {
            OAuthErrorCode::InvalidRequest
        } else if crate::transport::same_text(name, "slow_down") {
            OAuthErrorCode::SlowDown
        } else if crate::transport::same_text(name, "unsupported_grant_type") {
            OAuthErrorCode::UnsupportedGrantType
        } else {
            OAuthErrorCode::Unknown
        }
    }
}

/// Every code is read back from its own name.
pub proof fn lemma_oauth_code_name_round_trip(code: OAuthErrorCode)
    ensures
        oauth_code_of_name(oauth_code_name(code)) == code,
{
    reveal_strlit("access_denied");
    reveal_strlit("authorization_pending");
    reveal_strlit("expired_token");
    reveal_strlit("invalid_request");
    reveal_strlit("slow_down");
    reveal_strlit("unsupported_grant_type");
    reveal_strlit("unknown");
    assert("access_denied"@.len() == 13);
    assert("authorization_pending"@.len() == 21);
    assert("expired_token"@.len() == 13);
    assert("invalid_request"@.len() == 15);
    assert("slow_down"@.len() == 9);
    assert("unsupported_grant_type"@.len() == 22);
    assert("unknown"@.len() == 7);
    assert("access_denied"@[0] != "expired_token"@[0]);
}

/// The OAuth error envelope: `{"error": "<code>"}`.
#[derive(Clone, Copy, Debug, PartialEq, Eq)]
pub struct OAuthErrorResponse {
    pub error: OAuthErrorCode,
}

/// Errors returned by the device authorization flow.
#[derive(Clone, Debug, PartialEq, Eq)]
#[non_exhaustive]
pub enum DeviceFlowError {
    /// The user rejected the request. Terminal: request a new device code.
    AccessDenied,
    /// The device code is spent or past its lifetime.
    ExpiredToken,
    /// The code expired, after this many seconds, while the client was
    /// waiting for approval.
    TimedOut(u64),
    /// Any other error reported by the server.
    OAuth(OAuthErrorCode),
    /// The request itself failed.
    Client(ClientError),
}

/// The flow error an OAuth code stands for: denial and expiry have errors of
/// their own, every other code is reported as it is.
pub open spec fn flow_error_of_code(code: OAuthErrorCode) -> DeviceFlowError {
    match code {
        OAuthErrorCode::AccessDenied => DeviceFlowError::AccessDenied,
        OAuthErrorCode::ExpiredToken => DeviceFlowError::ExpiredToken,
        other => DeviceFlowError::OAuth(other),
    }
}

/// The message of a flow error of the flow's own; a client error carries
/// its own message.
pub open spec fn flow_error_message(error: DeviceFlowError) -> Option<Seq<char>> {
    match error {
        DeviceFlowError::AccessDenied => Some("The device authorization request was denied"@),
        DeviceFlowError::ExpiredToken => Some("The device code expired before it was approved"@),
        DeviceFlowError::TimedOut(secs) => Some(
            "The device authorization was not approved within "@ + decimal(secs as nat) + "s"@,
        ),
        DeviceFlowError::OAuth(code) => Some("Device authorization failed: "@ + oauth_code_name(code)),
        DeviceFlowError::Client(_) => None,
    }
}

impl DeviceFlowError {
    /// What this error says, when it is one of the flow's own.
    pub fn message(&self) -> (m: Option<String>)
        ensures
            match (m, flow_error_message(*self)) {
                (Some(a), Some(b)) => a@ == b,
                (None, None) => true,
                _ => false,
            },
    {
        match self {
            DeviceFlowError::AccessDenied => Some(owned("The device authorization request was denied")),
            DeviceFlowError::ExpiredToken => Some(owned("The device code expired before it was approved")),
            DeviceFlowError::TimedOut(secs) => {
                let mut m = owned("The device authorization was not approved within ");
                let digits = u64_text(*secs);
                push_text(&mut m, digits.as_str());
                push_text(&mut m, "s");
                Some(m)
            },
            DeviceFlowError::OAuth(code) => {
                let mut m = owned("Device authorization failed: ");
                let name = code.name();
                push_text(&mut m, name.as_str());
                Some(m)
            },
            DeviceFlowError::Client(_) => None,
        }
    }
}

impl From<OAuthErrorCode> for DeviceFlowError {
    fn from(code: OAuthErrorCode) -> (e: Self)
        ensures
            e == flow_error_of_code(code),
            e == DeviceFlowError::AccessDenied <==> code == OAuthErrorCode::AccessDenied,
            e == DeviceFlowError::ExpiredToken <==> code == OAuthErrorCode::ExpiredToken,
            code != OAuthErrorCode::AccessDenied && code != OAuthErrorCode::ExpiredToken ==> e
                == DeviceFlowError::OAuth(code),
    {
        match code {
            OAuthErrorCode::AccessDenied => DeviceFlowError::AccessDenied,
            OAuthErrorCode::ExpiredToken => DeviceFlowError::ExpiredToken,
            other => DeviceFlowError::OAuth(other),
        }
    }
}

impl vstd::std_specs::convert::FromSpecImpl<OAuthErrorCode> for DeviceFlowError {
    open spec fn obeys_from_spec() -> bool {
        true
    }

    open spec fn from_spec(v: OAuthErrorCode) -> Self {
        flow_error_of_code(v)
    }
}

impl From<ClientError> for DeviceFlowError {
    fn from(error: ClientError) -> (e: Self)
        ensures
            e == DeviceFlowError::Client(error),
    {
        DeviceFlowError::Client(error)
    }
}

impl vstd::std_specs::convert::FromSpecImpl<ClientError> for DeviceFlowError {
    open spec fn obeys_from_spec() -> bool {
        true
    }

    open spec fn from_spec(v: ClientError) -> Self {
        DeviceFlowError::Client(v)
    }
}


/// Each code is named by its snake-case wire name, and `Unknown` by
/// `unknown`, which is no name the server writes for a code.
pub proof fn lemma_code_name_is_its_wire_name(code: OAuthErrorCode)
    ensures
        code == OAuthErrorCode::AccessDenied ==> oauth_code_name(code) == "access_denied"@,
        code == OAuthErrorCode::AuthorizationPending ==> oauth_code_name(code) == "authorization_pending"@,
        code == OAuthErrorCode::ExpiredToken ==> oauth_code_name(code) == "expired_token"@,
        code == OAuthErrorCode::InvalidRequest ==> oauth_code_name(code) == "invalid_request"@,
        code == OAuthErrorCode::SlowDown ==> oauth_code_name(code) == "slow_down"@,
        code == OAuthErrorCode::UnsupportedGrantType ==> oauth_code_name(code) == "unsupported_grant_type"@,
        code == OAuthErrorCode::Unknown ==> oauth_code_name(code) == "unknown"@,
        code != OAuthErrorCode::Unknown <==> is_known_code_name(oauth_code_name(code)),
{
    lemma_known_code_names(oauth_code_name(code));
    lemma_oauth_code_name_round_trip(code);
}

/// A name is read as `Unknown` exactly when the server writes it for no
/// code this client knows; every name it does write is read as the code of
/// that name, and no two names are read as the same known code.
pub proof fn lemma_known_code_names(name: Seq<char>)
    ensures
        oauth_code_of_name(name) == OAuthErrorCode::Unknown <==> !is_known_code_name(name),
        is_known_code_name(name) ==> oauth_code_name(oauth_code_of_name(name)) == name,
        name == "invalid_request"@ ==> oauth_code_of_name(name) == OAuthErrorCode::InvalidRequest,
        name == "unsupported_grant_type"@ ==> oauth_code_of_name(name) == OAuthErrorCode::UnsupportedGrantType,
        name == "access_denied"@ ==> oauth_code_of_name(name) == OAuthErrorCode::AccessDenied,
        name == "expired_token"@ ==> oauth_code_of_name(name) == OAuthErrorCode::ExpiredToken,
        name == "authorization_pending"@ ==> oauth_code_of_name(name) == OAuthErrorCode::AuthorizationPending,
        name == "slow_down"@ ==> oauth_code_of_name(name) == OAuthErrorCode::SlowDown,
{
    reveal_strlit("access_denied");
    reveal_strlit("authorization_pending");
    reveal_strlit("expired_token");
    reveal_strlit("invalid_request");
    reveal_strlit("slow_down");
    reveal_strlit("unsupported_grant_type");
    reveal_strlit("unknown");
    lemma_oauth_code_name_round_trip(OAuthErrorCode::AccessDenied);
    lemma_oauth_code_name_round_trip(OAuthErrorCode::AuthorizationPending);
    lemma_oauth_code_name_round_trip(OAuthErrorCode::ExpiredToken);
    lemma_oauth_code_name_round_trip(OAuthErrorCode::InvalidRequest);
    lemma_oauth_code_name_round_trip(OAuthErrorCode::SlowDown);
    lemma_oauth_code_name_round_trip(OAuthErrorCode::UnsupportedGrantType);
}

/// Only `access_denied` is reported as a denial and only `expired_token` as
/// an expiry; every other code is reported as itself.
pub proof fn lemma_flow_error_of_each_code(code: OAuthErrorCode)
    ensures
        flow_error_of_code(code) == DeviceFlowError::AccessDenied <==> code == OAuthErrorCode::AccessDenied,
        flow_error_of_code(code) == DeviceFlowError::ExpiredToken <==> code == OAuthErrorCode::ExpiredToken,
        code != OAuthErrorCode::AccessDenied && code != OAuthErrorCode::ExpiredToken ==> flow_error_of_code(code)
            == DeviceFlowError::OAuth(code),
        flow_error_of_code(code) matches DeviceFlowError::OAuth(c) ==> c == code,
        !(flow_error_of_code(code) is TimedOut) && !(flow_error_of_code(code) is Client),
{
}

} // verus!
