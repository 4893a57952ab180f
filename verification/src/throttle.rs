//! The minimum inter-frame interval, as the emitter and each sender
//! enforce it. Times are readings of one monotonic clock in nanoseconds.

use vstd::prelude::*;

verus! {

/// Nanoseconds in a millisecond.
pub const NANOS_PER_MILLI: u64 = 1_000_000;

/// How far before its start a new emitter or sender places its last
/// emission, so that the first frame is not held back by a short interval.
pub const INITIAL_CREDIT_NANOS: u64 = 1_000_000_000;

/// A minimum interval in nanoseconds.
pub open spec fn interval_nanos(min_interval_ms: u32) -> int {
    min_interval_ms as int * NANOS_PER_MILLI as int
}

/// The time elapsed from `since` to `now`; zero if the clock reads earlier
/// than `since`.
pub open spec fn elapsed_nanos(since: u64, now: u64) -> int {
    if now >= since {
        now - since
    } else {
        0
    }
}

/// How long an emission must still wait: the part of the minimum interval
/// that has not yet elapsed. Zero when throttling is off.
pub open spec fn remaining_nanos(min_interval_ms: u32, since: u64, now: u64) -> int {
    if interval_nanos(min_interval_ms) > elapsed_nanos(since, now) {
        interval_nanos(min_interval_ms) - elapsed_nanos(since, now)
    } else {
        0
    }
}

/// The reading that a new emitter or sender takes as its last emission: one
/// second before `now`, or `now` itself where the clock has not run that
/// long.
pub open spec fn initial_last_emit(now: u64) -> u64 {
    if now >= INITIAL_CREDIT_NANOS {
        (now - INITIAL_CREDIT_NANOS) as u64
    } else {
        now
    }
}

/// Computes the reading that stands for the last emission at start.
pub fn start_reading(now: u64) -> (last: u64)
    ensures
        last == initial_last_emit(now),
{
    match now.checked_sub(INITIAL_CREDIT_NANOS) {
        Some(earlier) => earlier,
        None => now,
    }
}

/// The minimum interval in nanoseconds.
pub fn min_gap_nanos(min_interval_ms: u32) -> (gap: u64)
    ensures
        gap == interval_nanos(min_interval_ms),
{
    min_interval_ms as u64 * NANOS_PER_MILLI
}

/// How long the emitter has to sleep before it may emit, given the reading
/// of its last emission and the current one.
pub fn throttle_delay(min_interval_ms: u32, last_emit: u64, now: u64) -> (delay: u64)
    ensures
        delay == remaining_nanos(min_interval_ms, last_emit, now),
        min_interval_ms == 0 ==> delay == 0,
{
    let gap: u64 = min_gap_nanos(min_interval_ms);
    let elapsed: u64 = now.saturating_sub(last_emit);
    if elapsed < gap {
        gap - elapsed
    } else {
        0
    }
}

/// An emission that waits out the remaining time falls at least the minimum
/// interval after the last one.
pub proof fn lemma_delay_reaches_interval(min_interval_ms: u32, last_emit: u64, now: u64, at: int)
    requires
        now >= last_emit,
        at >= now + remaining_nanos(min_interval_ms, last_emit, now),
    ensures
        at - last_emit >= interval_nanos(min_interval_ms),
{
}

} // verus!
