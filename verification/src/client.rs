//! The environments the client can talk to.

use vstd::prelude::*;
use crate::text::{owned, push_text, decimal, u64_text};

verus! {

/// A Tracel deployment.
#[derive(Clone, Copy, Debug, PartialEq, Eq)]
pub enum Env {
    Production,
    /// The numbered staging deployment.
    Staging(u8),
    /// A server on this machine.
    Development,
}

/// The base URL of the production deployment.
pub open spec fn production_url() -> Seq<char> {
    "https://console.tracel.ai/api/"@
}

/// The base URL of a local development server.
pub open spec fn development_url() -> Seq<char> {
    "http://localhost:9001/"@
}

/// The base URL of staging deployment `version`: `https://s<version>-console.tracel.ai/api/`.
pub open spec fn staging_url(version: u8) -> Seq<char> {
    "https://s"@ + decimal(version as nat) + "-console.tracel.ai/api/"@
}

/// The base URL of an environment.
pub open spec fn env_url(env: Env) -> Seq<char> {
    match env {
        Env::Production => production_url(),
        Env::Staging(v) => staging_url(v),
        Env::Development => development_url(),
    }
}

impl Env {
    /// The base URL of this environment, as text.
    pub fn get_url(&self) -> (url: String)
        ensures
            url@ == env_url(*self),
    {
        match self {
            Env::Production => owned("https://console.tracel.ai/api/"),
            Env::Staging(version) => {
                let mut url = owned("https://s");
                let digits = u64_text(*version as u64);
                push_text(&mut url, digits.as_str());
                push_text(&mut url, "-console.tracel.ai/api/");
                url
            },
            Env::Development => owned("http://localhost:9001/"),
        }
    }
}

} // verus!
