//! The wall clock, as far as the library reads it.

use vstd::prelude::*;

verus! {

/// `chrono::Utc::now().timestamp()`: the wall clock, in whole seconds since the epoch.
/// Trusted: the range that `chrono` can represent at all, from the epoch on. It does not
/// return on a machine whose clock stands before the epoch.
#[verifier::external_body]
pub(crate) fn unix_now() -> (now: i64)
    ensures
        0 <= now < 185_542_587_187_200,
{
    chrono::Utc::now().timestamp()
}

/// `chrono::Utc::now().timestamp_micros()`: the wall clock, in microseconds since the
/// epoch. Nothing is claimed of the number.
#[verifier::external_body]
pub(crate) fn unix_now_micros() -> i64 {
    chrono::Utc::now().timestamp_micros()
}

} // verus!
