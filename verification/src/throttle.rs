//! Rate- and change-based suppression of writes to a slow sink.

use vstd::prelude::*;
use crate::clock::{elapsed, elapsed_since};

verus! {

/// What a throttle remembers of its sink, as mathematical values.
pub struct ThrottleState {
    /// The value that the sink holds: the one last written, or the one the
    /// throttle was created with.
    pub last_applied_value: int,
    /// When the sink was last written; `None` until the first write.
    pub last_applied_time: Option<int>,
    /// The least time between two writes.
    pub min_interval: int,
}

impl ThrottleState {
    /// A write of `value` at `now` is due: the value differs from the one
    /// the sink holds, and the last write, if there was one, lies at least
    /// the minimum interval back.
    pub open spec fn due(self, value: int, now: int) -> bool {
        &&& value != self.last_applied_value
        &&& match self.last_applied_time {
            Some(at) => elapsed(at, now) >= self.min_interval,
            None => true,
        }
    }

    /// The state after `value` was written at `now`.
    pub open spec fn applied(self, value: int, now: int) -> ThrottleState {
        ThrottleState {
            last_applied_value: value,
            last_applied_time: Some(now),
            min_interval: self.min_interval,
        }
    }

    /// The state once the sink is known to hold `value` without a write
    /// through the throttle.
    pub open spec fn holding(self, value: int) -> ThrottleState {
        ThrottleState { last_applied_value: value, ..self }
    }

    /// The state with another least time between two writes.
    pub open spec fn with_interval(self, min_interval: int) -> ThrottleState {
        ThrottleState { min_interval, ..self }
    }

    /// The state after a request to write `value` at `now`, where
    /// `sink_ok` tells whether the sink, if it is called, succeeds.
    pub open spec fn step(self, value: int, now: int, sink_ok: bool) -> ThrottleState {
        if self.due(value, now) && sink_ok {
            self.applied(value, now)
        } else {
            self
        }
    }

    /// How often a request to write `value` at `now` calls the sink.
    pub open spec fn writes(self, value: int, now: int) -> nat {
        if self.due(value, now) {
            1
        } else {
            0
        }
    }
}

/// Why a sink could not be used.
#[derive(Clone, Copy, Debug, PartialEq, Eq)]
pub enum SinkError {
    /// The sink could not be set up.
    Unavailable,
    /// A write to the sink failed.
    WriteFailed,
}

/// The throttle in front of one sink.
pub struct Throttle {
    last_applied_value: i32,
    last_applied_time: Option<u64>,
    min_interval: u64,
}

impl View for Throttle {
    type V = ThrottleState;

    closed spec fn view(&self) -> ThrottleState {
        ThrottleState {
            last_applied_value: self.last_applied_value as int,
            last_applied_time: match self.last_applied_time {
                Some(at) => Some(at as int),
                None => None,
            },
            min_interval: self.min_interval as int,
        }
    }
}

impl Throttle {
    /// A throttle for a sink that holds `initial_value` and has not been
    /// written yet.
    pub fn new(initial_value: i32, min_interval: u64) -> (throttle: Throttle)
        ensures
            throttle@ == (ThrottleState {
                last_applied_value: initial_value as int,
                last_applied_time: None,
                min_interval: min_interval as int,
            }),
    {
        Throttle { last_applied_value: initial_value, last_applied_time: None, min_interval }
    }

    /// Whether a write of `new_value` at `now` is due.
    pub fn is_due(&self, new_value: i32, now: u64) -> (due: bool)
        ensures
            due == self@.due(new_value as int, now as int),
    {
        if new_value == self.last_applied_value {
            return false;
        }
        match self.last_applied_time {
            Some(at) => elapsed_since(at, now) >= self.min_interval,
            None => true,
        }
    }

    /// Records that `value` was written to the sink at `now`.
    pub fn record(&mut self, value: i32, now: u64)
        ensures
            final(self)@ == old(self)@.applied(value as int, now as int),
    {
        self.last_applied_value = value;
        self.last_applied_time = Some(now);
    }

    /// Notes that the sink holds `value` without a write through the
    /// throttle, as after reading the value back from the sink.
    pub fn sync(&mut self, value: i32)
        ensures
            final(self)@ == old(self)@.holding(value as int),
    {
        self.last_applied_value = value;
    }

    /// Sets the least time between two writes.
    pub fn set_min_interval(&mut self, min_interval: u64)
        ensures
            final(self)@ == old(self)@.with_interval(min_interval as int),
    {
        self.min_interval = min_interval;
    }

    /// Hands `new_value` to the sink `apply` where a write is due, and
    /// records the write where the sink reports success. A value that is
    /// not due is dropped: the sink is not called and the result is `Ok`.
    /// Where the sink fails, its error is returned and nothing is recorded.
    pub fn update<E, F: FnOnce(i32) -> Result<(), E>>(
        &mut self,
        new_value: i32,
        now: u64,
        apply: F,
    ) -> (result: Result<(), E>)
        requires
            old(self)@.due(new_value as int, now as int) ==> call_requires(apply, (new_value,)),
        ensures
            !old(self)@.due(new_value as int, now as int) ==> result is Ok,
            old(self)@.due(new_value as int, now as int) ==> call_ensures(
                apply,
                (new_value,),
                result,
            ),
            final(self)@ == old(self)@.step(new_value as int, now as int, result is Ok),
    {
        if !self.is_due(new_value, now) {
            return Ok(());
        }
        let outcome = apply(new_value);
        if outcome.is_ok() {
            self.record(new_value, now);
        }
        outcome
    }

    /// The value that the sink holds.
    pub fn last_applied_value(&self) -> (value: i32)
        ensures
            value == self@.last_applied_value,
    {
        self.last_applied_value
    }

    /// When the sink was last written.
    pub fn last_applied_time(&self) -> (at: Option<u64>)
        ensures
            match at {
                Some(t) => self@.last_applied_time == Some(t as int),
                None => self@.last_applied_time is None,
            },
    {
        self.last_applied_time
    }

    /// The least time between two writes.
    pub fn min_interval(&self) -> (interval: u64)
        ensures
            interval == self@.min_interval,
    {
        self.min_interval
    }
}

/// The sink is written only when the value differs from the one it holds
/// and the interval since the last write has passed, and a write that
/// succeeds is recorded whole: a request changes the state only where it
/// is due and the sink succeeds, and then to the new value and the time
/// of the request.
pub proof fn lemma_state_follows_the_sink(state: ThrottleState, value: int, now: int, sink_ok: bool)
    ensures
        state.step(value, now, sink_ok) != state ==> state.due(value, now) && sink_ok,
        state.due(value, now) && sink_ok ==> state.step(value, now, sink_ok) == (ThrottleState {
            last_applied_value: value,
            last_applied_time: Some(now),
            min_interval: state.min_interval,
        }),
        state.due(value, now) ==> value != state.last_applied_value,
        state.due(value, now) ==> (state.last_applied_time matches Some(at) ==> elapsed(at, now)
            >= state.min_interval),
{
}

/// Asking twice for the same value writes it once: whenever the second
/// request comes, it calls the sink only if the first did not. Where the
/// first request was due and the sink took the value, the two requests
/// make one call between them, and the second leaves the state as it is.
pub proof fn lemma_repeated_update_writes_once(
    state: ThrottleState,
    value: int,
    first: int,
    second: int,
)
    ensures
        state.writes(value, first) + state.step(value, first, true).writes(value, second) <= 1,
        state.due(value, first) ==> state.writes(value, first) + state.step(
            value,
            first,
            true,
        ).writes(value, second) == 1,
        state.due(value, first) ==> forall|sink_ok: bool|
            #![trigger state.step(value, first, true).step(value, second, sink_ok)]
            state.step(value, first, true).step(value, second, sink_ok) == state.step(
                value,
                first,
                true,
            ),
{
}

/// A value that comes too soon after a write is dropped, and written
/// when it is asked for again after the interval: where `earlier` was
/// written at `first`, a request for another value at `second`, less than
/// the interval later, does not call the sink and leaves the state as it
/// is, and a request for it at `third`, the interval or more after
/// `first`, is due.
pub proof fn lemma_update_within_interval_is_dropped(
    state: ThrottleState,
    earlier: int,
    later: int,
    first: int,
    second: int,
    third: int,
)
    requires
        earlier != later,
        state.due(earlier, first),
        first <= second,
        second - first < state.min_interval,
        third - first >= state.min_interval,
    ensures
        state.step(earlier, first, true).writes(later, second) == 0,
        state.writes(earlier, first) + state.step(earlier, first, true).writes(later, second) == 1,
        forall|sink_ok: bool|
            #![trigger state.step(earlier, first, true).step(later, second, sink_ok)]
            state.step(earlier, first, true).step(later, second, sink_ok) == state.step(
                earlier,
                first,
                true,
            ),
        state.step(earlier, first, true).due(later, third),
        state.step(earlier, first, true).step(later, third, true).last_applied_value == later,
{
}

} // verus!
