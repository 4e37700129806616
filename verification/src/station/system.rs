//! Health of a station.

use vstd::prelude::*;
use crate::address::{text_of, resolve_url, join_url};

verus! {

/// Path of the health check, joined to the base URL itself rather than
/// under the API version.
pub const HEALTH_PATH: &'static str = "health";

/// The URL of the health check: `health` resolved against the base URL
/// itself, outside any API version.
pub fn health_url(base: &str) -> (r: Option<String>)
    ensures
        text_of(r) == resolve_url(base@, HEALTH_PATH@),
{
    join_url(base, HEALTH_PATH)
}

} // verus!
