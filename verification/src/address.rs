//! URLs: resolving a reference against a base, reading and replacing a
//! URL's scheme and path, and attaching an encoded query.
//!
//! The URL standard's parser and serializer do this work; each result is
//! given a name here and the request addresses are built over those names.

use vstd::prelude::*;

verus! {

/// The text of an optional string.
pub open spec fn text_of(o: Option<String>) -> Option<Seq<char>> {
    match o {
        Some(s) => Some(s@),
        None => None,
    }
}

/// The serialized URL that `reference` resolves to against the URL `base`;
/// `None` where `base` does not parse or the reference cannot be resolved.
pub uninterp spec fn resolve_url(base: Seq<char>, reference: Seq<char>) -> Option<Seq<char>>;

/// The serialized URL `url` with its scheme replaced by `scheme`; `None`
/// where `url` does not parse or the scheme cannot be set on it.
pub uninterp spec fn url_with_scheme(url: Seq<char>, scheme: Seq<char>) -> Option<Seq<char>>;

/// The scheme of the URL `url`; `None` where it does not parse.
pub uninterp spec fn scheme_of_url(url: Seq<char>) -> Option<Seq<char>>;

/// The path of the URL `url`; `None` where it does not parse.
pub uninterp spec fn path_of_url(url: Seq<char>) -> Option<Seq<char>>;

/// The serialized URL `url` with its path replaced by `path`; `None` where
/// `url` does not parse.
pub uninterp spec fn url_with_path(url: Seq<char>, path: Seq<char>) -> Option<Seq<char>>;

/// The serialized URL `url` with the pairs appended to its query, each name
/// and value form-urlencoded; `None` where `url` does not parse.
pub uninterp spec fn url_with_query_pairs(url: Seq<char>, pairs: Seq<(Seq<char>, Seq<char>)>) -> Option<Seq<char>>;

/// Resolves `reference` against the URL `base`.
///
/// Trusted: parses `base` with `reqwest::Url::parse` (the `url` crate's
/// `Url`), resolves the reference with `Url::join` and serializes the result
/// with `to_string`. The contract only names the result, as a function of
/// the two texts.
#[verifier::external_body]
pub(crate) fn join_url(base: &str, reference: &str) -> (r: Option<String>)
    ensures
        text_of(r) == resolve_url(base@, reference@),
{
    let parsed = reqwest::Url::parse(base).ok()?;
    let joined = parsed.join(reference).ok()?;
    Some(joined.to_string())
}

/// Replaces the scheme of the URL `url`.
///
/// Trusted: parses `url` with `reqwest::Url::parse`, calls `Url::set_scheme`
/// (which refuses some changes, such as between a special and a non-special
/// scheme) and serializes the result. The contract only names the result.
#[verifier::external_body]
pub(crate) fn set_url_scheme(url: &str, scheme: &str) -> (r: Option<String>)
    ensures
        text_of(r) == url_with_scheme(url@, scheme@),
{
    let mut parsed = reqwest::Url::parse(url).ok()?;
    parsed.set_scheme(scheme).ok()?;
    Some(parsed.to_string())
}

/// The scheme of the URL `url`.
///
/// Trusted: parses `url` with `reqwest::Url::parse` and returns
/// `Url::scheme`. The contract only names the result.
#[verifier::external_body]
pub(crate) fn url_scheme(url: &str) -> (r: Option<String>)
    ensures
        text_of(r) == scheme_of_url(url@),
{
    let parsed = reqwest::Url::parse(url).ok()?;
    Some(parsed.scheme().to_string())
}

/// The path of the URL `url`.
///
/// Trusted: parses `url` with `reqwest::Url::parse` and returns
/// `Url::path`. The contract only names the result.
#[verifier::external_body]
pub(crate) fn url_path(url: &str) -> (r: Option<String>)
    ensures
        text_of(r) == path_of_url(url@),
{
    let parsed = reqwest::Url::parse(url).ok()?;
    Some(parsed.path().to_string())
}

/// Replaces the path of the URL `url`.
///
/// Trusted: parses `url` with `reqwest::Url::parse`, calls `Url::set_path`
/// and serializes the result. The contract only names the result.
#[verifier::external_body]
pub(crate) fn set_url_path(url: &str, path: &str) -> (r: Option<String>)
    ensures
        text_of(r) == url_with_path(url@, path@),
{
    let mut parsed = reqwest::Url::parse(url).ok()?;
    parsed.set_path(path);
    Some(parsed.to_string())
}

/// Appends query pairs to the URL `url`.
///
/// Trusted: parses `url` with `reqwest::Url::parse`, hands the pairs in
/// order to `Url::query_pairs_mut().extend_pairs`, which form-urlencodes
/// each name and value (a space becomes `+`), and serializes the result.
/// The contract only names the result, as a function of the URL and the
/// pairs' texts.
#[verifier::external_body]
pub(crate) fn append_query_pairs(url: &str, pairs: &Vec<(String, String)>) -> (r: Option<String>)
    ensures
        text_of(r) == url_with_query_pairs(url@, crate::text::pairs_view(pairs@)),
{
    let mut parsed = reqwest::Url::parse(url).ok()?;
    parsed.query_pairs_mut().extend_pairs(pairs.iter());
    Some(parsed.to_string())
}

} // verus!
