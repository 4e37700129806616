//! Time limits the client applies, in whole seconds.

use vstd::prelude::*;

verus! {

/// Seconds an upload is allowed per started megabyte.
pub const UPLOAD_SECONDS_ALLOWED_PER_MEGABYTE: u64 = 10;

/// No upload is given less than this many seconds.
pub const MIN_UPLOAD_TIMEOUT_SECS: u64 = 60;

/// Bytes in a megabyte, as uploads are measured.
pub const BYTES_PER_MEGABYTE: u64 = 1048576;

/// The non-negative part of a number of seconds.
pub open spec fn clamp_seconds(seconds: int) -> nat {
    if seconds < 0 { 0 } else { seconds as nat }
}

/// Negative durations are not representable and only ever come from a
/// misbehaving server, so they are clamped to zero.
pub fn seconds_to_duration(seconds: i64) -> (secs: u64)
    ensures
        secs == clamp_seconds(seconds as int),
{
    if seconds < 0 {
        0
    } else {
        seconds as u64
    }
}

/// Megabytes an upload of `size_bytes` starts, rounding up.
pub open spec fn megabytes_started(size_bytes: nat) -> nat {
    ((size_bytes + BYTES_PER_MEGABYTE - 1) / (BYTES_PER_MEGABYTE as int)) as nat
}

/// Seconds allowed for an upload: ten per started megabyte, saturating at
/// `u64::MAX`, and never less than a minute.
pub open spec fn upload_timeout(size_bytes: nat) -> nat {
    let allowed: int = megabytes_started(size_bytes) * UPLOAD_SECONDS_ALLOWED_PER_MEGABYTE;
    let allowed: int = if allowed > u64::MAX { u64::MAX as int } else { allowed };
    if allowed < MIN_UPLOAD_TIMEOUT_SECS { MIN_UPLOAD_TIMEOUT_SECS as nat } else { allowed as nat }
}

/// The timeout, in seconds, worth allowing an upload of `size_bytes`.
///
/// Uploads get a timeout drawn from their own size rather than the one API
/// calls get, which no upload larger than a few megabytes would survive.
pub fn timeout_worth_allowing_an_upload_of(size_bytes: u64) -> (secs: u64)
    ensures
        secs == upload_timeout(size_bytes as nat),
{
    let megabytes = size_bytes / BYTES_PER_MEGABYTE + if size_bytes % BYTES_PER_MEGABYTE == 0 { 0 } else { 1 };
    assert(megabytes == megabytes_started(size_bytes as nat)) by (nonlinear_arith)
        requires
            megabytes == size_bytes / BYTES_PER_MEGABYTE + if size_bytes % BYTES_PER_MEGABYTE == 0 { 0int } else { 1int },
            BYTES_PER_MEGABYTE == 1048576,
    {
    }
    let allowed = match megabytes.checked_mul(UPLOAD_SECONDS_ALLOWED_PER_MEGABYTE) {
        Some(product) => product,
        None => u64::MAX,
    };
    if allowed < MIN_UPLOAD_TIMEOUT_SECS {
        MIN_UPLOAD_TIMEOUT_SECS
    } else {
        allowed
    }
}

/// An upload is never given less than a minute.
pub proof fn lemma_upload_timeout_at_least_a_minute(size_bytes: nat)
    ensures
        upload_timeout(size_bytes) >= MIN_UPLOAD_TIMEOUT_SECS,
{
}

/// A larger upload is never given a shorter timeout.
pub proof fn lemma_upload_timeout_monotonic(smaller: nat, larger: nat)
    requires
        smaller <= larger,
    ensures
        upload_timeout(smaller) <= upload_timeout(larger),
{
    assert(megabytes_started(smaller) <= megabytes_started(larger)) by (nonlinear_arith)
        requires
            smaller <= larger,
            BYTES_PER_MEGABYTE == 1048576,
    {
    }
    assert(megabytes_started(smaller) * 10 <= megabytes_started(larger) * 10) by (nonlinear_arith)
        requires
            megabytes_started(smaller) <= megabytes_started(larger),
    {
    }
}

} // verus!
