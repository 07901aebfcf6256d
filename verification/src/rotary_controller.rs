//! The rotary encoder: debouncing, quadrature decoding, and sleep while idle.
//!
//! The controller is a state machine. The polling loop reads the two lines
//! and the clock and hands each reading to [`RotaryController::update_volume`];
//! before each reading it asks [`RotaryController::handle_sleep`] whether to
//! go on polling or to block until the clock line moves.

use vstd::prelude::*;
use crate::clock::{elapsed, elapsed_since, DEBOUNCE_DELAY, RESET_DELAY, SLEEP_DELAY};

verus! {

/// The value that a controller starts with, where its bounds allow it.
pub const DEFAULT_VALUE: i32 = 50;

/// The lower bound of a controller that was given none.
pub const DEFAULT_MIN_VALUE: i32 = 0;

/// The upper bound of a controller that was given none.
pub const DEFAULT_MAX_VALUE: i32 = 100;

/// `value` moved into the range from `low` to `high`.
pub open spec fn clamp(value: int, low: int, high: int) -> int {
    if value < low {
        low
    } else if value > high {
        high
    } else {
        value
    }
}

/// One reading of the two encoder lines, with the time it was taken at.
pub struct Sample {
    /// The level of the clock line.
    pub clk_high: bool,
    /// The level of the data line.
    pub dt_high: bool,
    /// When the lines were read.
    pub now: int,
}

/// The state of the encoder as mathematical values.
pub struct EncoderState {
    /// The current volume.
    pub value: int,
    /// The least volume.
    pub min_value: int,
    /// The greatest volume.
    pub max_value: int,
    /// When a step was last registered or settled, or the decoder last woke.
    pub last_activity: int,
    /// Since when the clock line has been at the level that is waited for.
    pub debounce_start: int,
    /// The clock line is at the level that is waited for.
    pub waiting: bool,
    /// A step was registered and the clock line has not settled yet.
    pub settling: bool,
    /// The decoder sleeps: the polling loop blocks.
    pub asleep: bool,
}

impl EncoderState {
    /// The volume lies within its bounds.
    pub open spec fn wf(self) -> bool {
        self.min_value <= self.value <= self.max_value
    }

    /// The reading registers a step: the decoder is awake and looking for an
    /// edge, and the clock line has been low for the debounce window.
    pub open spec fn registers(self, sample: Sample) -> bool {
        &&& !self.asleep
        &&& !self.settling
        &&& !sample.clk_high
        &&& self.waiting
        &&& elapsed(self.debounce_start, sample.now) >= DEBOUNCE_DELAY
    }

    /// The reading ends the settle phase: the clock line has been high for
    /// the reset window.
    pub open spec fn settles(self, sample: Sample) -> bool {
        &&& !self.asleep
        &&& self.settling
        &&& sample.clk_high
        &&& self.waiting
        &&& elapsed(self.debounce_start, sample.now) >= RESET_DELAY
    }

    /// The volume after one step in the direction that the data line gives:
    /// up where it is low, down where it is high, never past a bound.
    pub open spec fn stepped(self, dt_high: bool) -> int {
        if dt_high {
            if self.value - 1 < self.min_value {
                self.min_value
            } else {
                self.value - 1
            }
        } else {
            if self.value + 1 > self.max_value {
                self.max_value
            } else {
                self.value + 1
            }
        }
    }

    /// The state after a reading taken while looking for an edge.
    pub open spec fn detect(self, sample: Sample) -> EncoderState {
        if self.registers(sample) {
            EncoderState {
                value: self.stepped(sample.dt_high),
                last_activity: sample.now,
                waiting: false,
                settling: true,
                ..self
            }
        } else if !sample.clk_high && !self.waiting {
            EncoderState { waiting: true, debounce_start: sample.now, ..self }
        } else if sample.clk_high {
            EncoderState { waiting: false, ..self }
        } else {
            self
        }
    }

    /// The state after a reading taken during the settle phase.
    pub open spec fn settle(self, sample: Sample) -> EncoderState {
        if self.settles(sample) {
            EncoderState {
                last_activity: sample.now,
                waiting: false,
                settling: false,
                ..self
            }
        } else if sample.clk_high && !self.waiting {
            EncoderState { waiting: true, debounce_start: sample.now, ..self }
        } else if !sample.clk_high {
            EncoderState { waiting: false, ..self }
        } else {
            self
        }
    }

    /// The state after one reading. Asleep, the decoder does no work.
    pub open spec fn decode(self, sample: Sample) -> EncoderState {
        if self.asleep {
            self
        } else if self.settling {
            self.settle(sample)
        } else {
            self.detect(sample)
        }
    }

    /// The event that one reading emits: the new volume where it registers a
    /// step, also where the step ran into a bound and left the volume as it
    /// was.
    pub open spec fn emitted(self, sample: Sample) -> Option<int> {
        if self.registers(sample) {
            Some(self.stepped(sample.dt_high))
        } else {
            None
        }
    }

    /// The decoder sleeps at `now`: it sleeps already, or nothing has
    /// happened for the sleep timeout.
    pub open spec fn sleeps(self, now: int) -> bool {
        self.asleep || elapsed(self.last_activity, now) >= SLEEP_DELAY
    }

    /// The state after the decoder was asked at `now` whether it sleeps.
    pub open spec fn idle_check(self, now: int) -> EncoderState {
        EncoderState { asleep: self.sleeps(now), ..self }
    }

    /// The state after an edge on the clock line woke the decoder at `now`.
    pub open spec fn woken(self, now: int) -> EncoderState {
        EncoderState { asleep: false, last_activity: now, ..self }
    }

    /// The state with the volume set to `value`, moved into the bounds.
    pub open spec fn with_value(self, value: int) -> EncoderState {
        EncoderState { value: clamp(value, self.min_value, self.max_value), ..self }
    }
}

/// The decoder of one rotary encoder.
pub struct RotaryController {
    name: String,
    value: i32,
    min_value: i32,
    max_value: i32,
    last_activity: u64,
    debounce_start: u64,
    waiting: bool,
    settling: bool,
    asleep: bool,
}

impl View for RotaryController {
    type V = EncoderState;

    closed spec fn view(&self) -> EncoderState {
        EncoderState {
            value: self.value as int,
            min_value: self.min_value as int,
            max_value: self.max_value as int,
            last_activity: self.last_activity as int,
            debounce_start: self.debounce_start as int,
            waiting: self.waiting,
            settling: self.settling,
            asleep: self.asleep,
        }
    }
}

/// The reading `(clk_high, dt_high, now)` as a [`Sample`].
pub open spec fn sample_of(clk_high: bool, dt_high: bool, now: u64) -> Sample {
    Sample { clk_high, dt_high, now: now as int }
}

impl RotaryController {
    #[verifier::type_invariant]
    spec fn bounded(&self) -> bool {
        self.min_value <= self.value <= self.max_value
    }

    /// The name that the controller was given.
    pub closed spec fn spec_name(&self) -> Seq<char> {
        self.name@
    }

    /// A controller created at `now`: awake, looking for an edge, with the
    /// bounds given or else 0 and 100, and the volume 50 moved into them.
    pub fn new(
        name: String,
        now: u64,
        min_volume: Option<i32>,
        max_volume: Option<i32>,
    ) -> (controller: RotaryController)
        requires
            (match min_volume {
                Some(low) => low,
                None => DEFAULT_MIN_VALUE,
            }) <= (match max_volume {
                Some(high) => high,
                None => DEFAULT_MAX_VALUE,
            }),
        ensures
            controller.spec_name() == name@,
            controller@.wf(),
            controller@ == (EncoderState {
                value: clamp(
                    DEFAULT_VALUE as int,
                    controller@.min_value,
                    controller@.max_value,
                ),
                min_value: match min_volume {
                    Some(low) => low as int,
                    None => DEFAULT_MIN_VALUE as int,
                },
                max_value: match max_volume {
                    Some(high) => high as int,
                    None => DEFAULT_MAX_VALUE as int,
                },
                last_activity: now as int,
                debounce_start: now as int,
                waiting: false,
                settling: false,
                asleep: false,
            }),
    {
        let min_value: i32 = match min_volume {
            Some(low) => low,
            None => DEFAULT_MIN_VALUE,
        };
        let max_value: i32 = match max_volume {
            Some(high) => high,
            None => DEFAULT_MAX_VALUE,
        };
        let value: i32 = if DEFAULT_VALUE < min_value {
            min_value
        } else if DEFAULT_VALUE > max_value {
            max_value
        } else {
            DEFAULT_VALUE
        };
        RotaryController {
            name,
            value,
            min_value,
            max_value,
            last_activity: now,
            debounce_start: now,
            waiting: false,
            settling: false,
            asleep: false,
        }
    }

    /// Asks at `now` whether to go on polling. `true`: go on. `false`: nothing
    /// has happened for the sleep timeout, or the decoder slept before; the
    /// polling loop blocks until the clock line moves and then calls
    /// [`RotaryController::wake`].
    pub fn handle_sleep(&mut self, now: u64) -> (awake: bool)
        ensures
            final(self)@ == old(self)@.idle_check(now as int),
            final(self).spec_name() == old(self).spec_name(),
            awake == !old(self)@.sleeps(now as int),
            final(self)@.wf(),
    {
        proof {
            use_type_invariant(&*self);
        }
        if self.asleep {
            return false;
        }
        if elapsed_since(self.last_activity, now) >= SLEEP_DELAY {
            self.asleep = true;
            return false;
        }
        true
    }

    /// Wakes the decoder: an edge on the clock line arrived at `now`.
    pub fn wake(&mut self, now: u64)
        ensures
            final(self)@ == old(self)@.woken(now as int),
            final(self).spec_name() == old(self).spec_name(),
            final(self)@.wf(),
    {
        proof {
            use_type_invariant(&*self);
        }
        self.asleep = false;
        self.last_activity = now;
    }

    /// Takes one reading of the two lines. Returns the new volume where the
    /// reading registers a step, and `None` otherwise.
    pub fn update_volume(&mut self, clk_high: bool, dt_high: bool, now: u64) -> (event: Option<i32>)
        ensures
            final(self)@ == old(self)@.decode(sample_of(clk_high, dt_high, now)),
            final(self).spec_name() == old(self).spec_name(),
            match event {
                Some(v) => old(self)@.emitted(sample_of(clk_high, dt_high, now)) == Some(v as int),
                None => old(self)@.emitted(sample_of(clk_high, dt_high, now)) is None,
            },
            event matches Some(v) ==> v == final(self)@.value,
            final(self)@.wf(),
    {
        proof {
            use_type_invariant(&*self);
        }
        if self.asleep {
            return None;
        }
        if self.settling {
            self.wait_for_reset(clk_high, now);
            return None;
        }
        if self.clk_detected(clk_high, now) {
            if !dt_high {
                if self.value < self.max_value {
                    self.value = self.value + 1;
                }
            } else {
                if self.value > self.min_value {
                    self.value = self.value - 1;
                }
            }
            self.settling = true;
            self.last_activity = now;
            return Some(self.value);
        }
        None
    }

    /// Sets the volume to `value`, moved into the bounds.
    pub fn set_value(&mut self, value: i32)
        ensures
            final(self)@ == old(self)@.with_value(value as int),
            final(self).spec_name() == old(self).spec_name(),
            final(self)@.wf(),
    {
        proof {
            use_type_invariant(&*self);
        }
        if value < self.min_value {
            self.value = self.min_value;
        } else if value > self.max_value {
            self.value = self.max_value;
        } else {
            self.value = value;
        }
    }

    /// The current volume.
    pub fn value(&self) -> (value: i32)
        ensures
            value == self@.value,
            self@.min_value <= value <= self@.max_value,
    {
        proof {
            use_type_invariant(self);
        }
        self.value
    }

    /// The least volume.
    pub fn min_value(&self) -> (low: i32)
        ensures
            low == self@.min_value,
    {
        self.min_value
    }

    /// The greatest volume.
    pub fn max_value(&self) -> (high: i32)
        ensures
            high == self@.max_value,
    {
        self.max_value
    }

    /// The name that the controller was given.
    pub fn name(&self) -> (name: &str)
        ensures
            name@ == self.spec_name(),
    {
        self.name.as_str()
    }

    /// Whether the decoder sleeps.
    pub fn is_asleep(&self) -> (asleep: bool)
        ensures
            asleep == self@.asleep,
    {
        self.asleep
    }

    /// Whether a step was registered and the clock line has not settled yet.
    pub fn is_settling(&self) -> (settling: bool)
        ensures
            settling == self@.settling,
    {
        self.settling
    }

    /// Looks for a falling edge of the clock line that has lasted for the
    /// debounce window. `true` once for each such edge.
    fn clk_detected(&mut self, clk_high: bool, now: u64) -> (detected: bool)
        requires
            !old(self).asleep,
            !old(self).settling,
        ensures
            detected == old(self)@.registers(sample_of(clk_high, false, now)),
            detected ==> *final(self) == (RotaryController { waiting: false, ..*old(self) }),
            !detected ==> final(self)@ == old(self)@.detect(sample_of(clk_high, false, now)),
            !detected ==> final(self).name == old(self).name,
    {
        proof {
            use_type_invariant(&*self);
        }
        if !clk_high && self.waiting && elapsed_since(self.debounce_start, now) >= DEBOUNCE_DELAY {
            self.waiting = false;
            return true;
        } else if !clk_high && !self.waiting {
            self.waiting = true;
            self.debounce_start = now;
        } else if clk_high {
            self.waiting = false;
        }
        false
    }

    /// Follows the clock line after a step until it has been high for the
    /// reset window. `true` when the settle phase has ended.
    fn wait_for_reset(&mut self, clk_high: bool, now: u64) -> (settled: bool)
        requires
            !old(self).asleep,
            old(self).settling,
        ensures
            settled == old(self)@.settles(sample_of(clk_high, false, now)),
            final(self)@ == old(self)@.settle(sample_of(clk_high, false, now)),
            final(self).name == old(self).name,
    {
        proof {
            use_type_invariant(&*self);
        }
        if clk_high {
            if !self.waiting {
                self.debounce_start = now;
                self.waiting = true;
            } else if elapsed_since(self.debounce_start, now) >= RESET_DELAY {
                self.waiting = false;
                self.settling = false;
                self.last_activity = now;
                return true;
            }
        } else {
            self.waiting = false;
        }
        false
    }
}

} // verus!
