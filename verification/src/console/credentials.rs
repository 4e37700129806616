//! Credentials that authorize a client.

use vstd::prelude::*;
use crate::text::owned;

verus! {

/// An opaque Tracel session token.
///
/// Issued by the device authorization flow. Expires after a day of
/// inactivity.
#[derive(Clone, PartialEq, Eq)]
pub struct SessionToken(String);

impl View for SessionToken {
    type V = Seq<char>;

    closed spec fn view(&self) -> Seq<char> {
        self.0@
    }
}

/// Message of the error a blank session token is refused with.
pub open spec fn empty_token_message() -> Seq<char> {
    "Session token cannot be empty"@
}

impl SessionToken {
    /// Wraps a token.
    pub fn new(token: String) -> (t: Self)
        ensures
            t@ == token@,
    {
        SessionToken(token)
    }

    /// The token's text.
    pub fn as_str(&self) -> (s: &str)
        ensures
            s@ == self@,
    {
        self.0.as_str()
    }

    /// The token's text, taken out of the token.
    pub fn into_string(self) -> (s: String)
        ensures
            s@ == self@,
    {
        self.0
    }

    /// Parses a token, refusing an empty one.
    pub fn from_text(s: &str) -> (r: Result<Self, String>)
        ensures
            s@.len() == 0 ==> (r matches Err(m) && m@ == empty_token_message()),
            s@.len() != 0 ==> (r matches Ok(t) && t@ == s@),
    {
        if s.unicode_len() == 0 {
            Err(owned("Session token cannot be empty"))
        } else {
            Ok(SessionToken::new(owned(s)))
        }
    }

    /// The text `Debug` shows for a token: the secret itself is never shown.
    pub fn debug_text(&self) -> (s: String)
        ensures
            s@ == "SessionToken([REDACTED])"@,
    {
        owned("SessionToken([REDACTED])")
    }
}

impl core::str::FromStr for SessionToken {
    type Err = String;

    fn from_str(s: &str) -> (r: Result<Self, String>)
        ensures
            s@.len() == 0 ==> (r matches Err(m) && m@ == empty_token_message()),
            s@.len() != 0 ==> (r matches Ok(t) && t@ == s@),
    {
        SessionToken::from_text(s)
    }
}

/// Credentials to connect to the Tracel server.
#[derive(Clone, PartialEq, Eq)]
pub enum TracelCredentials {
    /// A long-lived API key, created from the Tracel console.
    ApiKey(String),
    /// A session token, issued by the device authorization flow.
    SessionToken(SessionToken),
}

impl TracelCredentials {
    /// Credentials backed by an API key.
    pub fn api_key(api_key: String) -> (c: Self)
        ensures
            c matches TracelCredentials::ApiKey(k) && k@ == api_key@,
    {
        TracelCredentials::ApiKey(api_key)
    }

    /// Credentials backed by a session token.
    pub fn session_token(session_token: SessionToken) -> (c: Self)
        ensures
            c == TracelCredentials::SessionToken(session_token),
    {
        TracelCredentials::SessionToken(session_token)
    }

    /// Credentials from the values of `TRACEL_API_KEY` and
    /// `TRACEL_SESSION_TOKEN`, as the environment gave them.
    ///
    /// The API key takes precedence; without one the session token is used,
    /// or its lookup error returned.
    pub fn from_env_values<E>(api_key: Result<String, E>, session_token: Result<String, E>) -> (r: Result<Self, E>)
        ensures
            api_key is Ok ==> (r matches Ok(TracelCredentials::ApiKey(c)) && c@ == api_key->Ok_0@),
            (api_key is Err && session_token is Ok) ==> (r matches Ok(TracelCredentials::SessionToken(c)) && c@ == session_token->Ok_0@),
            (api_key is Err && session_token is Err) ==> r == Err::<Self, E>(session_token->Err_0),
    {
        match api_key {
            Ok(k) => Ok(TracelCredentials::ApiKey(k)),
            Err(_) => match session_token {
                Ok(t) => Ok(TracelCredentials::SessionToken(SessionToken::new(t))),
                Err(e) => Err(e),
            },
        }
    }

    /// The text `Debug` shows for credentials: their kind, never the secret.
    pub fn debug_text(&self) -> (s: String)
        ensures
            self is ApiKey ==> s@ == "TracelCredentials::ApiKey([REDACTED])"@,
            self is SessionToken ==> s@ == "TracelCredentials::SessionToken([REDACTED])"@,
    {
        match self {
            TracelCredentials::ApiKey(_) => owned("TracelCredentials::ApiKey([REDACTED])"),
            TracelCredentials::SessionToken(_) => owned("TracelCredentials::SessionToken([REDACTED])"),
        }
    }
}

impl From<SessionToken> for TracelCredentials {
    fn from(session_token: SessionToken) -> Self {
        TracelCredentials::SessionToken(session_token)
    }
}

impl vstd::std_specs::convert::FromSpecImpl<SessionToken> for TracelCredentials {
    open spec fn obeys_from_spec() -> bool {
        true
    }

    open spec fn from_spec(v: SessionToken) -> Self {
        TracelCredentials::SessionToken(v)
    }
}

} // verus!
