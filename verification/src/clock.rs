//! The wall clock. Reading it is the one effect the scheduling entry points
//! perform themselves; every decision taken on the value read is verified
//! for every possible value.

use vstd::prelude::*;

verus! {

/// Relies on chrono's `Utc::now` and `DateTime::timestamp`: the current
/// wall-clock time as whole seconds since the Unix epoch. Nothing is assumed
/// of the value; it expects a host clock at or after the epoch.
#[verifier::external_body]
pub(crate) fn now_unix() -> i64 {
    chrono::Utc::now().timestamp()
}

/// The seconds value clamped to the scheduler's domain: a clock before the
/// Unix epoch reads as the epoch itself.
pub fn clamp_epoch(t: i64) -> (r: u64)
    ensures
        r == if t < 0 {
            0
        } else {
            t as u64
        },
{
    if t < 0 {
        0
    } else {
        t as u64
    }
}

} // verus!
