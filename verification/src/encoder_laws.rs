//! What holds of the decoder over whole runs of events.

use vstd::prelude::*;
use crate::clock::{elapsed, DEBOUNCE_DELAY, RESET_DELAY, SLEEP_DELAY};
use crate::rotary_controller::{EncoderState, Sample};

verus! {

/// What can happen to a decoder.
pub enum Event {
    /// The two lines were read.
    Read(Sample),
    /// The decoder was asked at this time whether it sleeps.
    Check(int),
    /// An edge on the clock line woke the decoder at this time.
    Wake(int),
}

impl Event {
    /// The event is a reading that found the clock line high.
    pub open spec fn reads_high(self) -> bool {
        match self {
            Event::Read(sample) => sample.clk_high,
            _ => false,
        }
    }

    /// When the event happened.
    pub open spec fn at(self) -> int {
        match self {
            Event::Read(sample) => sample.now,
            Event::Check(now) => now,
            Event::Wake(now) => now,
        }
    }
}

/// The events are in the order of their times.
pub open spec fn ordered(events: Seq<Event>) -> bool {
    forall|i: int, j: int| 0 <= i <= j < events.len() ==> events[i].at() <= events[j].at()
}

/// Every event is a reading.
pub open spec fn all_readings(events: Seq<Event>) -> bool {
    forall|i: int| 0 <= i < events.len() ==> #[trigger] events[i] is Read
}

/// The events from `from` to `to` are readings that found the clock line
/// high.
pub open spec fn held_high(events: Seq<Event>, from: int, to: int) -> bool {
    forall|k: int| from <= k <= to ==> (#[trigger] events[k]).reads_high()
}

impl EncoderState {
    /// The state after one event.
    pub open spec fn apply(self, event: Event) -> EncoderState {
        match event {
            Event::Read(sample) => self.decode(sample),
            Event::Check(now) => self.idle_check(now),
            Event::Wake(now) => self.woken(now),
        }
    }

    /// Whether the event registers a step.
    pub open spec fn steps_at(self, event: Event) -> bool {
        event matches Event::Read(sample) && self.registers(sample)
    }

    /// The state after the events, in their order.
    pub open spec fn run(self, events: Seq<Event>) -> EncoderState
        decreases events.len(),
    {
        if events.len() == 0 {
            self
        } else {
            self.run(events.drop_last()).apply(events.last())
        }
    }

    /// How many steps the events register.
    pub open spec fn steps(self, events: Seq<Event>) -> nat
        decreases events.len(),
    {
        if events.len() == 0 {
            0
        } else {
            let before = self.steps(events.drop_last());
            if self.run(events.drop_last()).steps_at(events.last()) {
                before + 1
            } else {
                before
            }
        }
    }
}

/// The volume stays within its bounds, and the bounds stay as they are,
/// whatever happens to the decoder.
pub proof fn lemma_value_stays_in_bounds(state: EncoderState, events: Seq<Event>)
    requires
        state.wf(),
    ensures
        state.run(events).wf(),
        state.run(events).min_value == state.min_value,
        state.run(events).max_value == state.max_value,
    decreases events.len(),
{
    if events.len() > 0 {
        lemma_value_stays_in_bounds(state, events.drop_last());
    }
}

/// Every event that a reading emits is the volume after the reading, and
/// lies within the bounds.
pub proof fn lemma_emitted_volume_is_in_bounds(state: EncoderState, sample: Sample)
    requires
        state.wf(),
    ensures
        state.emitted(sample) matches Some(volume) ==> volume == state.decode(sample).value
            && state.min_value <= volume <= state.max_value,
{
}

/// A reading that registers a step starts the settle phase: the decoder
/// then waits for the clock line to go high, and takes the time of the
/// reading as the time of its last activity.
pub proof fn lemma_step_starts_settling(state: EncoderState, sample: Sample)
    requires
        state.registers(sample),
    ensures
        state.decode(sample).settling,
        !state.decode(sample).waiting,
        !state.decode(sample).asleep,
        state.decode(sample).last_activity == sample.now,
        forall|next: Sample| !(#[trigger] state.decode(sample).registers(next)),
{
}

/// A run of events can be cut in two at any place.
pub proof fn lemma_run_split(state: EncoderState, first: Seq<Event>, second: Seq<Event>)
    ensures
        state.run(first + second) == state.run(first).run(second),
        state.steps(first + second) == state.steps(first) + state.run(first).steps(second),
    decreases second.len(),
{
    if second.len() > 0 {
        assert((first + second).drop_last() =~= first + second.drop_last());
        lemma_run_split(state, first, second.drop_last());
    }
}

/// What is known of a decoder at time `current` that registered a step at
/// `stepped` and none since.
spec fn quiet(state: EncoderState, stepped: int, current: int) -> bool {
    &&& state.settling && state.waiting ==> state.debounce_start >= stepped
    &&& !state.settling ==> current >= stepped + RESET_DELAY
    &&& !state.settling && state.waiting ==> state.debounce_start >= stepped + RESET_DELAY
}

proof fn lemma_quiet_run(state: EncoderState, stepped: int, current: int, events: Seq<Event>)
    requires
        quiet(state, stepped, current),
        stepped <= current,
        ordered(events),
        forall|k: int|
            0 <= k < events.len() ==> current <= (#[trigger] events[k]).at() < stepped + RESET_DELAY
                + DEBOUNCE_DELAY,
    ensures
        state.steps(events) == 0,
        quiet(
            state.run(events),
            stepped,
            if events.len() == 0 {
                current
            } else {
                events.last().at()
            },
        ),
    decreases events.len(),
{
    if events.len() > 0 {
        let before = events.drop_last();
        assert(ordered(before));
        assert forall|k: int| 0 <= k < before.len() implies current <= (#[trigger] before[k]).at()
            < stepped + RESET_DELAY + DEBOUNCE_DELAY by {}
        lemma_quiet_run(state, stepped, current, before);
    }
}

/// After a step no other step is registered before the reset window and
/// the debounce window have both passed: from a decoder that has just
/// registered a step at `stepped`, events in the order of their times, all
/// of them earlier than `stepped` plus the two windows, register no step.
pub proof fn lemma_no_step_before_windows_pass(
    state: EncoderState,
    stepped: int,
    events: Seq<Event>,
)
    requires
        state.settling,
        !state.waiting,
        ordered(events),
        forall|k: int|
            0 <= k < events.len() ==> stepped <= (#[trigger] events[k]).at() < stepped + RESET_DELAY
                + DEBOUNCE_DELAY,
    ensures
        state.steps(events) == 0,
{
    lemma_quiet_run(state, stepped, stepped, events);
}

/// Events that lie closer together than the reset window and the debounce
/// window taken together register at most one step, whatever state the
/// decoder is in.
pub proof fn lemma_steps_are_spaced(state: EncoderState, events: Seq<Event>)
    requires
        ordered(events),
        events.len() > 0 ==> events.last().at() - events.first().at() < RESET_DELAY
            + DEBOUNCE_DELAY,
    ensures
        state.steps(events) <= 1,
    decreases events.len(),
{
    if events.len() > 0 {
        let head = seq![events.first()];
        let rest = events.drop_first();
        assert(events =~= head + rest);
        lemma_run_split(state, head, rest);
        assert(state.steps(head.drop_last()) == 0);
        assert(state.steps(head) == (if state.steps_at(events.first()) {
            1nat
        } else {
            0nat
        }));
        assert(ordered(rest));
        let next = state.apply(events.first());
        if state.steps_at(events.first()) {
            let stepped = events.first().at();
            assert forall|k: int| 0 <= k < rest.len() implies stepped <= (#[trigger] rest[k]).at()
                < stepped + RESET_DELAY + DEBOUNCE_DELAY by {}
            lemma_no_step_before_windows_pass(next, stepped, rest);
        } else {
            lemma_steps_are_spaced(next, rest);
        }
    }
}

/// Two falling edges of the clock line that lie closer together than the
/// debounce window register at most one step: events within less than the
/// debounce window register at most one.
pub proof fn lemma_bounce_registers_at_most_one_step(state: EncoderState, events: Seq<Event>)
    requires
        ordered(events),
        events.len() > 0 ==> events.last().at() - events.first().at() < DEBOUNCE_DELAY,
    ensures
        state.steps(events) <= 1,
{
    lemma_steps_are_spaced(state, events);
}

/// From the event `from` to the event `to` the clock line was read high
/// without a break, for the reset window or longer.
pub open spec fn settled_stretch(events: Seq<Event>, from: int, to: int) -> bool {
    &&& 0 <= from <= to < events.len()
    &&& held_high(events, from, to)
    &&& events[to].at() - events[from].at() >= RESET_DELAY
}

/// The clock line has been read high without a break from the event `from`
/// on, which happened at `start`.
spec fn high_since(events: Seq<Event>, from: int, start: int) -> bool {
    &&& 0 <= from < events.len()
    &&& held_high(events, from, events.len() - 1)
    &&& events[from].at() == start
}

/// The readings have not brought the settle phase to its end.
spec fn still_settling(state: EncoderState, events: Seq<Event>) -> bool {
    let reached = state.run(events);
    &&& reached.settling
    &&& !reached.asleep
    &&& state.steps(events) == 0
    &&& reached.waiting ==> exists|from: int| high_since(events, from, reached.debounce_start)
}

proof fn lemma_held_high_extends(events: Seq<Event>, from: int, to: int)
    requires
        0 <= from <= to < events.len() - 1,
        held_high(events.drop_last(), from, to),
    ensures
        held_high(events, from, to),
{
    assert forall|k: int| from <= k <= to implies (#[trigger] events[k]).reads_high() by {
        assert(events.drop_last()[k] == events[k]);
    }
}

proof fn lemma_settling_run(state: EncoderState, events: Seq<Event>)
    requires
        state.settling,
        !state.waiting,
        !state.asleep,
        all_readings(events),
    ensures
        still_settling(state, events) || exists|from: int, to: int|
            settled_stretch(events, from, to),
    decreases events.len(),
{
    if events.len() > 0 {
        let before = events.drop_last();
        let last = events.last();
        let n = events.len() as int;
        assert(all_readings(before));
        lemma_settling_run(state, before);
        if exists|from: int, to: int| settled_stretch(before, from, to) {
            let (from, to) = choose|from: int, to: int| settled_stretch(before, from, to);
            lemma_held_high_extends(events, from, to);
            assert(settled_stretch(events, from, to));
        } else {
            let reached = state.run(before);
            let sample = last->Read_0;
            if reached.settles(sample) {
                let from = choose|from: int| high_since(before, from, reached.debounce_start);
                if from < n - 2 {
                    lemma_held_high_extends(events, from, n - 2);
                }
                assert(settled_stretch(events, from, n - 1));
            } else if sample.clk_high && !reached.waiting {
                assert(high_since(events, n - 1, state.run(events).debounce_start));
            } else if sample.clk_high {
                let from = choose|from: int| high_since(before, from, reached.debounce_start);
                if from < n - 2 {
                    lemma_held_high_extends(events, from, n - 2);
                }
                assert(high_since(events, from, reached.debounce_start));
            }
        }
    }
}

/// After a step no other step is registered until the clock line has been
/// high without a break for the reset window: where readings taken after
/// a step end the settle phase or register a step, there is a stretch of
/// them that found the line high throughout and is as long as the window.
pub proof fn lemma_step_waits_for_settled_line(state: EncoderState, readings: Seq<Event>)
    requires
        state.settling,
        !state.waiting,
        !state.asleep,
        all_readings(readings),
        !state.run(readings).settling || state.steps(readings) > 0,
    ensures
        exists|from: int, to: int| settled_stretch(readings, from, to),
{
    lemma_settling_run(state, readings);
}

/// A decoder for which nothing has happened for the sleep timeout goes to
/// sleep when it is asked, and asleep it does no work: readings leave it
/// as it is and register no step, until an edge wakes it.
pub proof fn lemma_idle_decoder_sleeps(state: EncoderState, now: int, readings: Seq<Event>)
    requires
        elapsed(state.last_activity, now) >= SLEEP_DELAY,
        all_readings(readings),
    ensures
        state.idle_check(now).asleep,
        state.idle_check(now).run(readings) == state.idle_check(now),
        state.idle_check(now).steps(readings) == 0,
        forall|woken_at: int| !(#[trigger] state.idle_check(now).woken(woken_at)).asleep,
    decreases readings.len(),
{
    if readings.len() > 0 {
        let before = readings.drop_last();
        assert(all_readings(before));
        lemma_idle_decoder_sleeps(state, now, before);
    }
}

} // verus!
