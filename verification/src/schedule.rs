//! The refresh policy: fetch once per wall-clock hour boundary crossed, and
//! force a stuck fetch back to idle after a bounded stall.

use vstd::prelude::*;

verus! {

/// How long an outstanding request may go unanswered before the machine
/// gives it up and returns to idle. A dropped response would otherwise
/// block every future refresh. Five minutes: far above any plausible
/// round trip, far below the hourly refresh cadence.
pub const STALL_TIMEOUT_SECS: u64 = 300;

/// The hour of day, 0 to 23, of a time in whole seconds since the Unix
/// epoch.
pub open spec fn hour_of_day(secs: u64) -> u64 {
    (secs / 3600) % 24
}

/// The hour of day of a Unix-seconds time.
pub fn hour_of(secs: u64) -> (h: u64)
    ensures
        h == hour_of_day(secs),
{
    (secs / 3600) % 24
}

/// The refresh gate: a fetch is due exactly when the machine is idle and
/// either no fetch ever succeeded or the current hour of day differs from
/// the hour of the last success. Crossing an hour boundary makes a tick
/// due whatever the elapsed minutes; several boundaries skipped at once
/// still yield a single refresh.
pub open spec fn should_fetch_spec(
    stage: crate::state::FetchStage,
    now_secs: u64,
    last_updated: Option<u64>,
) -> bool {
    &&& stage == crate::state::FetchStage::Idle
    &&& match last_updated {
        Option::None => true,
        Option::Some(t) => hour_of_day(now_secs) != hour_of_day(t),
    }
}

/// Decides the refresh gate.
pub fn should_fetch(
    stage: crate::state::FetchStage,
    now_secs: u64,
    last_updated: Option<u64>,
) -> (r: bool)
    ensures
        r == should_fetch_spec(stage, now_secs, last_updated),
{
    if stage != crate::state::FetchStage::Idle {
        return false;
    }
    match last_updated {
        None => true,
        Some(t) => hour_of(now_secs) != hour_of(t),
    }
}

/// Whether an outstanding request has gone unanswered past the stall
/// bound. A missing request time counts as stalled: the machine is out of
/// idle with no recorded request to wait for.
pub open spec fn stalled_spec(now_secs: u64, last_requested: Option<u64>) -> bool {
    match last_requested {
        Option::None => true,
        Option::Some(t) => now_secs >= t + STALL_TIMEOUT_SECS,
    }
}

/// Decides the stall bound.
pub fn stalled(now_secs: u64, last_requested: Option<u64>) -> (r: bool)
    ensures
        r == stalled_spec(now_secs, last_requested),
{
    match last_requested {
        None => true,
        Some(t) => now_secs >= t && now_secs - t >= STALL_TIMEOUT_SECS,
    }
}

} // verus!
