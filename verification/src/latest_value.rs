//! The consumer's side of the event channel, and the pace of its loop.
//!
//! The channel hands over every volume event, and the consumer keeps only
//! the newest of those that have queued up. Receiving is left to the
//! caller, which hands in what it received.

use vstd::prelude::*;
use crate::clock::{elapsed, elapsed_since};

verus! {

/// The least time that one pass of the consumer's loop takes.
pub const MAIN_LOOP_INTERVAL: u64 = 50_000;

/// Why the consumer cannot go on.
#[derive(Clone, Copy, Debug, PartialEq, Eq)]
pub enum ChannelError {
    /// The producer is gone: no event will arrive.
    ChannelClosed,
}

/// The newest of the events, which are in the order they were sent in.
pub open spec fn spec_latest(events: Seq<i32>) -> Option<i32> {
    if events.len() == 0 {
        None
    } else {
        Some(events.last())
    }
}

/// The time left of a pass that started at `started`, at `now`.
pub open spec fn spec_cycle_remainder(started: int, now: int) -> int {
    if elapsed(started, now) >= MAIN_LOOP_INTERVAL {
        0
    } else {
        MAIN_LOOP_INTERVAL - elapsed(started, now)
    }
}

/// The newest of the events that had queued up, `None` where there were
/// none: the consumer then has to block for the next one.
pub fn latest(queued: &Vec<i32>) -> (newest: Option<i32>)
    ensures
        newest == spec_latest(queued@),
{
    let mut newest: Option<i32> = None;
    let mut i: usize = 0;
    while i < queued.len()
        invariant
            i <= queued.len(),
            newest == spec_latest(queued@.subrange(0, i as int)),
        decreases queued.len() - i,
    {
        newest = Some(queued[i]);
        i = i + 1;
    }
    newest
}

/// What a blocking receive gave: the event, or the failure where the
/// channel was closed and gave `None`.
pub fn received(event: Option<i32>) -> (outcome: Result<i32, ChannelError>)
    ensures
        outcome == (match event {
            Some(volume) => Ok::<i32, ChannelError>(volume),
            None => Err::<i32, ChannelError>(ChannelError::ChannelClosed),
        }),
{
    match event {
        Some(volume) => Ok(volume),
        None => Err(ChannelError::ChannelClosed),
    }
}

/// For how long the consumer sleeps at `now` to fill the pass that started
/// at `started`.
pub fn cycle_remainder(started: u64, now: u64) -> (remainder: u64)
    ensures
        remainder == spec_cycle_remainder(started as int, now as int),
{
    let spent = elapsed_since(started, now);
    if spent >= MAIN_LOOP_INTERVAL {
        0
    } else {
        MAIN_LOOP_INTERVAL - spent
    }
}

/// Of events sent one after the other the newest wins: what queued up
/// later hides what queued up earlier.
pub proof fn lemma_latest_of_later(earlier: Seq<i32>, later: Seq<i32>)
    ensures
        spec_latest(earlier + later) == (if later.len() == 0 {
            spec_latest(earlier)
        } else {
            spec_latest(later)
        }),
{
}

} // verus!
