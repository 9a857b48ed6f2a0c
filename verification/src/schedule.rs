//! Tick scheduling: a fixed cadence with no catch-up.
//!
//! Instants are readings of a monotonic clock, in nanoseconds.

use vstd::prelude::*;

verus! {

/// The time from the start of one cycle to the start of the next, in nanoseconds.
pub const POLL_INTERVAL_NANOS: u64 = 1_500_000_000;

/// The instant at which the cycle that started at `start` is due to give
/// way to the next one.
pub fn next_tick(start: u64) -> (deadline: u64)
    requires
        start + POLL_INTERVAL_NANOS <= u64::MAX,
    ensures
        deadline == start + POLL_INTERVAL_NANOS,
{
    start + POLL_INTERVAL_NANOS
}

/// How long to sleep at `now` to wake at `next_tick`: the time that is
/// left, or `None` when the cycle has used up its interval.
pub open spec fn spec_maybe_sleep(now: u64, next_tick: u64) -> Option<u64> {
    if now < next_tick {
        Some((next_tick - now) as u64)
    } else {
        None
    }
}

/// How long to sleep at `now` to wake at `next_tick`: the time that is
/// left, or `None` when the cycle has used up its interval, in which case
/// the next cycle starts at once and the overrun is not made up for.
#[verifier::when_used_as_spec(spec_maybe_sleep)]
pub fn maybe_sleep(now: u64, next_tick: u64) -> (sleep: Option<u64>)
    ensures
        sleep == spec_maybe_sleep(now, next_tick),
        sleep matches Some(nanos) ==> nanos > 0 && now + nanos == next_tick,
        sleep is None <==> now >= next_tick,
{
    if now < next_tick {
        Some(next_tick - now)
    } else {
        None
    }
}

} // verus!
