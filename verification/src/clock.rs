//! The system timer.
//!
//! All times in this library are tick counts of the system timer, as
//! `embassy_time` gives them; intervals are counted in the same ticks.
use vstd::prelude::*;

verus! {

/// `embassy_time::Instant::now`, read as a tick count with
/// `Instant::as_ticks`. What comes back depends on when it is called, so
/// nothing is claimed of it.
#[verifier::external_body]
pub(crate) fn now_ticks() -> u64 {
    embassy_time::Instant::now().as_ticks()
}

/// The tick count `interval` ticks after `instant`, or the largest count if
/// that lies beyond it.
pub open spec fn spec_later(instant: u64, interval: u64) -> u64 {
    if instant + interval <= u64::MAX {
        (instant + interval) as u64
    } else {
        u64::MAX
    }
}

/// The tick count `interval` ticks after `instant`, or the largest count if
/// that lies beyond it.
pub fn later(instant: u64, interval: u64) -> (deadline: u64)
    ensures
        deadline == spec_later(instant, interval),
{
    if interval <= u64::MAX - instant {
        instant + interval
    } else {
        u64::MAX
    }
}

/// True if at `now` at least `interval` ticks have passed since `since`.
pub open spec fn spec_has_passed(since: u64, interval: u64, now: u64) -> bool {
    now - since >= interval
}

/// True if at `now` at least `interval` ticks have passed since `since`.
pub fn has_passed(since: u64, interval: u64, now: u64) -> (passed: bool)
    ensures
        passed == spec_has_passed(since, interval, now),
{
    now >= since && now - since >= interval
}

} // verus!
