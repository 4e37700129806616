//! Turning credentials into a session the client can use.
//!
//! An API key has to be exchanged for a session; a session token already is
//! one. Neither path proves the session is live; the caller does that.

use vstd::prelude::*;
use crate::console::credentials::TracelCredentials;
use crate::error::ClientError;
use crate::transport::{Auth, session_cookie_text};

verus! {

/// Path of the endpoint that trades an API key for a session.
pub const API_KEY_LOGIN_PATH: &'static str = "login/api-key";

/// Form body of `POST login/api-key`.
#[derive(Clone, Debug)]
pub struct ApiKeyLoginRequest<'a> {
    pub api_key: &'a str,
}

/// What it takes to authenticate with some credentials.
#[derive(Clone, Debug, PartialEq, Eq)]
pub enum SessionPlan {
    /// The session is known without asking the server.
    Ready(Auth),
    /// The API key has to be exchanged at `login/api-key`.
    ExchangeApiKey(String),
}

/// How `credentials` become a session: a session token is used as the
/// session cookie as it is, an API key has to be exchanged.
pub fn authenticate(credentials: &TracelCredentials) -> (plan: SessionPlan)
    ensures
        credentials matches TracelCredentials::SessionToken(t) ==> (plan matches SessionPlan::Ready(
            Auth::SessionCookie(c),
        ) && c@ == session_cookie_text(t@)),
        credentials matches TracelCredentials::ApiKey(k) ==> (plan matches SessionPlan::ExchangeApiKey(
            k2,
        ) && k2@ == k@),
{
    match credentials {
        TracelCredentials::ApiKey(api_key) => SessionPlan::ExchangeApiKey(api_key.clone()),
        TracelCredentials::SessionToken(session_token) => SessionPlan::Ready(
            Auth::session_token(session_token.as_str()),
        ),
    }
}

/// The form an API key is exchanged with.
pub fn login_form(api_key: &str) -> (form: ApiKeyLoginRequest<'_>)
    ensures
        form.api_key@ == api_key@,
{
    ApiKeyLoginRequest { api_key }
}

/// The session an API key exchange answered with.
///
/// `set_cookie` is the `Set-Cookie` header of the answer: absent, present
/// but not visible ASCII (`Some(None)`), or its text. The transport sends
/// the text back verbatim as the `Cookie` header.
pub fn session_from_set_cookie(set_cookie: Option<Option<String>>) -> (r: Result<Auth, ClientError>)
    ensures
        set_cookie matches Some(Some(c)) ==> r == Ok::<Auth, ClientError>(Auth::SessionCookie(c)),
        !(set_cookie matches Some(Some(_))) ==> r == Err::<Auth, ClientError>(ClientError::BadSessionId),
{
    match set_cookie {
        Some(Some(cookie)) => Ok(Auth::SessionCookie(cookie)),
        _ => Err(ClientError::BadSessionId),
    }
}

} // verus!
