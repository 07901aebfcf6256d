//! Timestamps and durations.
//!
//! A timestamp is a count of microseconds read from a monotonic clock. The
//! library never reads a clock itself: every function that depends on time
//! takes the current timestamp as an argument.

use vstd::prelude::*;

verus! {

/// How long the clock line has to stay low before a falling edge counts.
pub const DEBOUNCE_DELAY: u64 = 500;

/// How long the clock line has to stay high after a step before the next
/// edge may be looked for.
pub const RESET_DELAY: u64 = 4_000;

/// How long the encoder may stay idle before the polling loop goes to sleep.
pub const SLEEP_DELAY: u64 = 3_000_000;

/// The time from `start` to `now`, zero where the clock reads earlier than
/// `start`.
pub open spec fn elapsed(start: int, now: int) -> int {
    if now >= start {
        now - start
    } else {
        0
    }
}

/// The microseconds that passed from `start` to `now`, saturating at zero.
pub fn elapsed_since(start: u64, now: u64) -> (e: u64)
    ensures
        e == elapsed(start as int, now as int),
{
    if now >= start {
        now - start
    } else {
        0
    }
}

} // verus!
