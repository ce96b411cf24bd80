//! Fresh request identifiers and wall-clock timestamps. Both are
//! environment-dependent, so little can be said of their values.
use vstd::prelude::*;

use std::time::{SystemTime, UNIX_EPOCH};

verus! {

/// Relies on uuid's version-4 generator and its hyphenated rendering: a
/// random identifier printed as 36 characters. The value is random, so only
/// its length is promised.
#[verifier::external_body]
pub(crate) fn fresh_request_id() -> (r: String)
    ensures
        r@.len() == 36,
{
    uuid::Uuid::new_v4().to_string()
}

/// Relies on std's `SystemTime`: the seconds since the Unix epoch, or zero
/// when the clock reads earlier than the epoch. The value depends on the
/// clock, so nothing is promised of it.
#[verifier::external_body]
pub(crate) fn unix_now() -> (r: u64) {
    SystemTime::now().duration_since(UNIX_EPOCH).map(|d| d.as_secs()).unwrap_or(0)
}

} // verus!
