//! How requests are addressed and authenticated.

use vstd::prelude::*;
use crate::text::{owned, push_text, decimal, u64_text, pairs_view};
use crate::address::{
    text_of, resolve_url, path_of_url, url_with_path, url_with_query_pairs, join_url, url_path,
    set_url_path, append_query_pairs, scheme_of_url, url_with_scheme, url_scheme, set_url_scheme,
};

verus! {

/// Name of the cookie that carries a session.
pub const SESSION_COOKIE_NAME: &'static str = "id";

/// The credentials a request is sent with.
#[derive(Clone, Debug, PartialEq, Eq)]
pub enum Auth {
    /// No credentials.
    Anonymous,
    /// A session, sent verbatim as the `Cookie` header.
    SessionCookie(String),
    /// A token, sent as `Authorization: Bearer <token>`.
    Bearer(String),
}

/// The cookie that names the session `token`: `id=<token>`.
pub open spec fn session_cookie_text(token: Seq<char>) -> Seq<char> {
    seq!['i', 'd', '='] + token
}

/// The value of the `Authorization` header for a bearer `token`.
pub open spec fn bearer_text(token: Seq<char>) -> Seq<char> {
    seq!['B', 'e', 'a', 'r', 'e', 'r', ' '] + token
}

/// A header a request carries: its lowercase name and its value.
pub open spec fn auth_header_spec(auth: Auth) -> Option<(Seq<char>, Seq<char>)> {
    match auth {
        Auth::Anonymous => None,
        Auth::SessionCookie(c) => Some((seq!['c', 'o', 'o', 'k', 'i', 'e'], c@)),
        Auth::Bearer(t) => Some(
            (seq!['a', 'u', 't', 'h', 'o', 'r', 'i', 'z', 'a', 't', 'i', 'o', 'n'], bearer_text(t@)),
        ),
    }
}

impl Auth {
    /// Credentials for a bare session id.
    ///
    /// The device flow returns the session id itself, not a `Set-Cookie`
    /// header, so the cookie is built here.
    pub fn session_token(token: &str) -> (auth: Self)
        ensures
            auth matches Auth::SessionCookie(c) && c@ == session_cookie_text(token@),
    {
        proof {
            reveal_strlit("id=");
        }
        let mut cookie = owned("id=");
        push_text(&mut cookie, token);
        Auth::SessionCookie(cookie)
    }

    /// The header these credentials add to a request, if any.
    pub fn header(&self) -> (h: Option<(String, String)>)
        ensures
            match (h, auth_header_spec(*self)) {
                (None, None) => true,
                (Some(p), Some(q)) => p.0@ == q.0 && p.1@ == q.1,
                _ => false,
            },
    {
        match self {
            Auth::Anonymous => None,
            Auth::SessionCookie(c) => {
                proof {
                    reveal_strlit("cookie");
                }
                Some((owned("cookie"), c.clone()))
            },
            Auth::Bearer(t) => {
                proof {
                    reveal_strlit("authorization");
                    reveal_strlit("Bearer ");
                }
                let mut value = owned("Bearer ");
                push_text(&mut value, t.as_str());
                Some((owned("authorization"), value))
            },
        }
    }
}

/// Whether two texts are equal, character for character.
pub fn same_text(a: &str, b: &str) -> (eq: bool)
    ensures
        eq == (a@ == b@),
{
    let n = a.unicode_len();
    if n != b.unicode_len() {
        return false;
    }
    let mut i: usize = 0;
    while i < n
        invariant
            n == a@.len(),
            n == b@.len(),
            i <= n,
            forall|j: int| 0 <= j < i ==> a@[j] == b@[j],
        decreases n - i,
    {
        if a.get_char(i) != b.get_char(i) {
            return false;
        }
        i = i + 1;
    }
    assert(a@ =~= b@);
    true
}

/// `path`, ending in exactly one more `/` when it did not end in one.
pub open spec fn with_trailing_slash_spec(path: Seq<char>) -> Seq<char> {
    if path.len() > 0 && path.last() == '/' {
        path
    } else {
        path.push('/')
    }
}

/// Makes a base URL path end in `/`, so that relative paths join below it
/// instead of replacing its last segment.
pub fn with_trailing_slash(path: &str) -> (r: String)
    ensures
        r@ == with_trailing_slash_spec(path@),
{
    let n = path.unicode_len();
    let mut r = owned(path);
    if n > 0 && path.get_char(n - 1) == '/' {
        r
    } else {
        proof {
            reveal_strlit("/");
        }
        push_text(&mut r, "/");
        assert(r@ =~= path@.push('/'));
        r
    }
}

/// The WebSocket scheme for a base URL scheme: `wss` under `https`, `ws`
/// otherwise.
pub open spec fn websocket_scheme_spec(scheme: Seq<char>) -> Seq<char> {
    if scheme == seq!['h', 't', 't', 'p', 's'] {
        seq!['w', 's', 's']
    } else {
        seq!['w', 's']
    }
}

/// The WebSocket scheme that goes with the scheme of the base URL.
pub fn websocket_scheme(base_scheme: &str) -> (s: String)
    ensures
        s@ == websocket_scheme_spec(base_scheme@),
{
    proof {
        reveal_strlit("https");
        reveal_strlit("wss");
        reveal_strlit("ws");
        assert("https"@ =~= seq!['h', 't', 't', 'p', 's']);
        assert("wss"@ =~= seq!['w', 's', 's']);
        assert("ws"@ =~= seq!['w', 's']);
    }
    if same_text(base_scheme, "https") {
        owned("wss")
    } else {
        owned("ws")
    }
}

/// The path segment of an API version: `v<version>/`.
pub open spec fn version_segment_spec(version: u8) -> Seq<char> {
    seq!['v'] + decimal(version as nat) + seq!['/']
}

/// The segment API paths are joined under, for `version`.
pub fn version_segment(version: u8) -> (s: String)
    ensures
        s@ == version_segment_spec(version),
{
    proof {
        reveal_strlit("v");
        reveal_strlit("/");
    }
    let mut s = owned("v");
    let digits = u64_text(version as u64);
    push_text(&mut s, digits.as_str());
    push_text(&mut s, "/");
    s
}

/// The API version requests are addressed to.
pub const API_VERSION: u8 = 1;

/// Where `path` is addressed under `version` of the API at `base`: the
/// version segment resolved against the base, then the path against that.
pub open spec fn versioned_url_spec(base: Seq<char>, path: Seq<char>, version: u8) -> Option<Seq<char>> {
    match resolve_url(base, version_segment_spec(version)) {
        Some(versioned) => resolve_url(versioned, path),
        None => None,
    }
}

/// Where `path` is addressed under the current API version.
pub open spec fn api_url_spec(base: Seq<char>, path: Seq<char>) -> Option<Seq<char>> {
    versioned_url_spec(base, path, API_VERSION)
}

/// The URL a request for `path` goes to under `version` of the API at
/// `base`; `None` where either resolution fails.
pub fn versioned_url(base: &str, path: &str, version: u8) -> (r: Option<String>)
    ensures
        text_of(r) == versioned_url_spec(base@, path@, version),
{
    let segment = version_segment(version);
    match join_url(base, segment.as_str()) {
        Some(versioned) => join_url(versioned.as_str(), path),
        None => None,
    }
}

/// The URL a request for `path` goes to under the current API version.
pub fn api_url(base: &str, path: &str) -> (r: Option<String>)
    ensures
        text_of(r) == api_url_spec(base@, path@),
{
    versioned_url(base, path, API_VERSION)
}

/// Where `path` is addressed with the query `pairs` attached.
pub open spec fn api_url_with_query_spec(
    base: Seq<char>,
    path: Seq<char>,
    pairs: Seq<(Seq<char>, Seq<char>)>,
) -> Option<Seq<char>> {
    match api_url_spec(base, path) {
        Some(url) => url_with_query_pairs(url, pairs),
        None => None,
    }
}

/// The URL of `path` with the query `pairs` appended, each encoded. The
/// query is there, if empty, even when there are no pairs.
pub fn api_url_with_query(base: &str, path: &str, pairs: &Vec<(String, String)>) -> (r: Option<String>)
    ensures
        text_of(r) == api_url_with_query_spec(base@, path@, pairs_view(pairs@)),
{
    match api_url(base, path) {
        Some(url) => append_query_pairs(url.as_str(), pairs),
        None => None,
    }
}

/// Where `path` is addressed with the query `pairs`, which is left off
/// altogether when there are none.
pub open spec fn api_url_with_optional_query_spec(
    base: Seq<char>,
    path: Seq<char>,
    pairs: Seq<(Seq<char>, Seq<char>)>,
) -> Option<Seq<char>> {
    if pairs.len() == 0 {
        api_url_spec(base, path)
    } else {
        api_url_with_query_spec(base, path, pairs)
    }
}

/// The URL of `path`, with the query `pairs` appended when there are any.
pub fn api_url_with_optional_query(base: &str, path: &str, pairs: &Vec<(String, String)>) -> (r: Option<String>)
    ensures
        text_of(r) == api_url_with_optional_query_spec(base@, path@, pairs_view(pairs@)),
{
    if pairs.len() == 0 {
        api_url(base, path)
    } else {
        api_url_with_query(base, path, pairs)
    }
}

/// Where the WebSocket at `path` is: the API URL of `path`, under `wss`
/// when the base is served over `https` and `ws` otherwise.
pub open spec fn websocket_url_spec(base: Seq<char>, path: Seq<char>) -> Option<Seq<char>> {
    match (api_url_spec(base, path), scheme_of_url(base)) {
        (Some(url), Some(scheme)) => url_with_scheme(url, websocket_scheme_spec(scheme)),
        _ => None,
    }
}

/// The URL of the WebSocket at `path` under the API at `base`.
pub fn websocket_url_at(base: &str, path: &str) -> (r: Option<String>)
    ensures
        text_of(r) == websocket_url_spec(base@, path@),
{
    let url = match api_url(base, path) {
        Some(url) => url,
        None => return None,
    };
    match url_scheme(base) {
        Some(scheme) => {
            let ws = websocket_scheme(scheme.as_str());
            set_url_scheme(url.as_str(), ws.as_str())
        },
        None => None,
    }
}

/// The base URL requests are resolved against: `base` itself when its path
/// ends in `/`, else `base` with a `/` appended to its path.
pub open spec fn base_url_spec(base: Seq<char>) -> Option<Seq<char>> {
    match path_of_url(base) {
        Some(path) => if path.len() > 0 && path.last() == '/' {
            Some(base)
        } else {
            url_with_path(base, with_trailing_slash_spec(path))
        },
        None => None,
    }
}

/// Makes the path of a base URL end in `/`, so that relative paths resolve
/// below it instead of replacing its last segment; `None` where `base` is
/// no URL.
pub fn base_url_with_trailing_slash(base: &str) -> (r: Option<String>)
    ensures
        text_of(r) == base_url_spec(base@),
{
    match url_path(base) {
        Some(path) => {
            let n = path.unicode_len();
            if n > 0 && path.get_char(n - 1) == '/' {
                Some(owned(base))
            } else {
                let slashed = with_trailing_slash(path.as_str());
                set_url_path(base, slashed.as_str())
            }
        },
        None => None,
    }
}

} // verus!
