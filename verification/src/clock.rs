//! The one place where the crate reads a clock.
//!
//! Everything downstream takes plain `u64` instants as arguments, so the
//! rules themselves stay deterministic and fully specified.

use vstd::prelude::*;

verus! {

/// Milliseconds since the Unix epoch, read from the system wall clock.
///
/// Relies on `std::time::SystemTime::now`: the current time, about which
/// nothing can be promised; callers state what holds of every possible
/// reading. A clock set before the epoch reads as `0`.
#[verifier::external_body]
pub(crate) fn now_millis() -> u64 {
    std::time::SystemTime::now()
        .duration_since(std::time::UNIX_EPOCH)
        .map(|d| d.as_millis() as u64)
        .unwrap_or(0)
}

/// Seconds since the Unix epoch, as a signed count.
///
/// Derived from [`now_millis`]; the result always fits in `i64`.
pub(crate) fn now_secs() -> (r: i64)
    ensures
        r >= 0,
{
    let ms = now_millis();
    (ms / 1000) as i64
}

} // verus!
