//! The mixer sink: what to ask of the mixer's command-line tool, and what
//! to make of its answers.
//!
//! Running the tool is left to the caller. The updater hands out the
//! arguments of each call and takes the text that the tool printed.

use vstd::prelude::*;
use vstd::string::*;
use crate::text::{decimal_text, parse_i32, spec_decimal_text, spec_parse_i32};
use crate::throttle::{SinkError, Throttle, ThrottleState};

verus! {

/// The volume that is taken where the mixer's level cannot be read.
pub const FALLBACK_VOLUME: i32 = 50;

/// The pattern of a level in the mixer's answer: digits and a percent sign.
pub const PERCENT_PATTERN: &'static str = r"(\d+)%";

/// Why a starting volume is not the mixer's own level.
#[derive(Clone, Copy, Debug, PartialEq, Eq)]
pub enum MixerWarning {
    /// The query command could not be run.
    CommandFailed,
    /// The answer held no level that could be read.
    ParseFailed,
}

/// The volume to start with, and the warning to report with it, if any.
#[derive(Clone, Copy, Debug, PartialEq, Eq)]
pub struct StartingVolume {
    /// The volume.
    pub volume: i32,
    /// Set where the fallback was taken.
    pub warning: Option<MixerWarning>,
}

/// The text that capture group `group` of the regular expression `pattern`
/// holds in the leftmost match in `text`. `None` where `pattern` is no
/// regular expression or too large a one, where nothing in `text` matches,
/// and where the group took no part in the match.
pub uninterp spec fn spec_regex_capture(pattern: Seq<char>, text: Seq<char>, group: int) -> Option<Seq<char>>;

/// Calls `regex::Regex::new` on `pattern`, `Regex::captures` on `text`, and
/// `Captures::get` and `Match::as_str` for `group`. Nothing is proved of the
/// result: it is taken to be what [`spec_regex_capture`] names, that is, to
/// depend on the three arguments alone.
#[verifier::external_body]
fn regex_capture(pattern: &str, text: &str, group: usize) -> (found: Option<String>)
    ensures
        match found {
            Some(token) => spec_regex_capture(pattern@, text@, group as int) == Some(token@),
            None => spec_regex_capture(pattern@, text@, group as int) is None,
        },
{
    let compiled = match regex::Regex::new(pattern) {
        Ok(compiled) => compiled,
        Err(_) => return None,
    };
    let captures = compiled.captures(text)?;
    let matched = captures.get(group)?;
    Some(matched.as_str().to_owned())
}

/// The level that a captured token gives: the number it writes, if it
/// writes one.
pub open spec fn level_of(token: Option<Seq<char>>) -> Option<int> {
    match token {
        Some(digits) => spec_parse_i32(digits),
        None => None,
    }
}

/// The starting volume for a level read from the mixer, or for none: the
/// level, or else the fallback, and never more than `ceiling`.
pub open spec fn spec_starting_volume(level: Option<int>, fallback: int, ceiling: int) -> int {
    let volume = match level {
        Some(read) => read,
        None => fallback,
    };
    if volume <= ceiling {
        volume
    } else {
        ceiling
    }
}

/// The arguments of the call that sets the level of `device` to `volume`
/// percent.
pub open spec fn spec_set_arguments(device: Seq<char>, volume: int) -> Seq<Seq<char>> {
    seq!["set"@, "-M"@, device, spec_decimal_text(volume) + "%"@]
}

/// The arguments of the call that asks for the level of `device`.
pub open spec fn spec_get_arguments(device: Seq<char>) -> Seq<Seq<char>> {
    seq!["get"@, device, "-M"@]
}

/// The mixer sink as mathematical values.
pub struct MixerState {
    /// The mixer control that is set and asked.
    pub device: Seq<char>,
    /// The throttle in front of the mixer.
    pub throttle: ThrottleState,
    /// The volume that is taken where the level cannot be read.
    pub fallback: int,
}

/// Sets and reads the level of one mixer control.
pub struct AmixerUpdater {
    device: String,
    throttle: Throttle,
    fallback: i32,
}

impl View for AmixerUpdater {
    type V = MixerState;

    closed spec fn view(&self) -> MixerState {
        MixerState {
            device: self.device@,
            throttle: self.throttle@,
            fallback: self.fallback as int,
        }
    }
}

impl AmixerUpdater {
    /// An updater for the control `control`, or for `default` where none is
    /// given, whose mixer is taken to hold `volume`. Writes are not spaced
    /// out until an interval is set. Never fails.
    pub fn new(control: Option<String>, volume: i32) -> (updater: Result<AmixerUpdater, SinkError>)
        ensures
            updater is Ok,
            updater->Ok_0@ == (MixerState {
                device: match control {
                    Some(name) => name@,
                    None => "default"@,
                },
                throttle: ThrottleState {
                    last_applied_value: volume as int,
                    last_applied_time: None,
                    min_interval: 0,
                },
                fallback: FALLBACK_VOLUME as int,
            }),
    {
        let device = match control {
            Some(name) => name,
            None => "default".to_owned(),
        };
        Ok(AmixerUpdater { device, throttle: Throttle::new(volume, 0), fallback: FALLBACK_VOLUME })
    }

    /// The same updater with writes spaced out by `min_interval`
    /// microseconds or more.
    pub fn with_min_interval(self, min_interval: u64) -> (updater: AmixerUpdater)
        ensures
            updater@ == (MixerState {
                throttle: self@.throttle.with_interval(min_interval as int),
                ..self@
            }),
    {
        let mut updater = self;
        updater.throttle.set_min_interval(min_interval);
        updater
    }

    /// The same updater with `fallback` as the volume that is taken where
    /// the level cannot be read.
    pub fn with_fallback(self, fallback: i32) -> (updater: AmixerUpdater)
        ensures
            updater@ == (MixerState { fallback: fallback as int, ..self@ }),
    {
        let mut updater = self;
        updater.fallback = fallback;
        updater
    }

    /// The volume that the mixer is taken to hold.
    pub fn volume(&self) -> (volume: i32)
        ensures
            volume == self@.throttle.last_applied_value,
    {
        self.throttle.last_applied_value()
    }

    /// The mixer control.
    pub fn device(&self) -> (device: &str)
        ensures
            device@ == self@.device,
    {
        self.device.as_str()
    }

    /// The arguments of the call that sets the level to `volume` percent.
    pub fn set_arguments(&self, volume: i32) -> (arguments: Vec<String>)
        ensures
            arguments.deep_view() == spec_set_arguments(self@.device, volume as int),
    {
        let mut percent = decimal_text(volume);
        percent.append("%");
        let mut arguments: Vec<String> = Vec::new();
        arguments.push("set".to_owned());
        arguments.push("-M".to_owned());
        arguments.push(self.device.clone());
        arguments.push(percent);
        arguments
    }

    /// The arguments of the call that asks for the level.
    pub fn get_arguments(&self) -> (arguments: Vec<String>)
        ensures
            arguments.deep_view() == spec_get_arguments(self@.device),
    {
        let mut arguments: Vec<String> = Vec::new();
        arguments.push("get".to_owned());
        arguments.push(self.device.clone());
        arguments.push("-M".to_owned());
        arguments
    }

    /// Sets the mixer to `volume` through `run`, which is handed the
    /// arguments of the call, where a write is due at `now`. A volume that
    /// is not due is dropped: `run` is not called and the result is `Ok`.
    /// Where `run` fails, its error is returned and the mixer is taken to
    /// hold what it held.
    pub fn update<E, F: FnOnce(Vec<String>) -> Result<(), E>>(
        &mut self,
        volume: i32,
        now: u64,
        run: F,
    ) -> (result: Result<(), E>)
        requires
            old(self)@.throttle.due(volume as int, now as int) ==> forall|arguments: Vec<String>|
                arguments.deep_view() == spec_set_arguments(old(self)@.device, volume as int)
                    ==> call_requires(run, (arguments,)),
        ensures
            !old(self)@.throttle.due(volume as int, now as int) ==> result is Ok,
            old(self)@.throttle.due(volume as int, now as int) ==> exists|arguments: Vec<String>|
                arguments.deep_view() == spec_set_arguments(old(self)@.device, volume as int)
                    && call_ensures(run, (arguments,), result),
            final(self)@ == (MixerState {
                throttle: old(self)@.throttle.step(volume as int, now as int, result is Ok),
                ..old(self)@
            }),
    {
        if !self.throttle.is_due(volume, now) {
            return Ok(());
        }
        let arguments = self.set_arguments(volume);
        let outcome = run(arguments);
        if outcome.is_ok() {
            self.throttle.record(volume, now);
        }
        outcome
    }

    /// Takes the token that was found in the mixer's answer, or none, as
    /// the mixer's level: the mixer is then taken to hold the starting
    /// volume that is returned. A token that writes no number, and no
    /// token, give the fallback and a warning.
    pub fn accept_level(
        &mut self,
        token: Option<&str>,
        startup_volume: i32,
    ) -> (start: StartingVolume)
        ensures
            start.volume == spec_starting_volume(
                level_of(
                    match token {
                        Some(digits) => Some(digits@),
                        None => None,
                    },
                ),
                old(self)@.fallback,
                startup_volume as int,
            ),
            start.warning == (if level_of(
                match token {
                    Some(digits) => Some(digits@),
                    None => None,
                },
            ) is Some {
                None::<MixerWarning>
            } else {
                Some(MixerWarning::ParseFailed)
            }),
            final(self)@ == (MixerState {
                throttle: old(self)@.throttle.holding(start.volume as int),
                ..old(self)@
            }),
    {
        let level = match token {
            Some(digits) => parse_i32(digits),
            None => None,
        };
        let (read, warning) = match level {
            Some(read) => (read, None),
            None => (self.fallback, Some(MixerWarning::ParseFailed)),
        };
        let volume = if read <= startup_volume {
            read
        } else {
            startup_volume
        };
        self.throttle.sync(volume);
        StartingVolume { volume, warning }
    }

    /// Takes the fallback as the starting volume after the query command
    /// could not be run.
    pub fn accept_failure(&mut self, startup_volume: i32) -> (start: StartingVolume)
        ensures
            start.volume == spec_starting_volume(
                None,
                old(self)@.fallback,
                startup_volume as int,
            ),
            start.warning == Some(MixerWarning::CommandFailed),
            final(self)@ == (MixerState {
                throttle: old(self)@.throttle.holding(start.volume as int),
                ..old(self)@
            }),
    {
        let volume = if self.fallback <= startup_volume {
            self.fallback
        } else {
            startup_volume
        };
        self.throttle.sync(volume);
        StartingVolume { volume, warning: Some(MixerWarning::CommandFailed) }
    }

    /// The volume to start with, from what the query command printed, or
    /// from `None` where it could not be run: the first level in `output`,
    /// digits in front of a percent sign, or else the fallback, and never
    /// more than `startup_volume`. The mixer is then taken to hold it.
    pub fn get_starting_volume(
        &mut self,
        output: Option<&str>,
        startup_volume: i32,
    ) -> (start: StartingVolume)
        ensures
            start.volume == spec_starting_volume(
                match output {
                    Some(text) => level_of(spec_regex_capture(PERCENT_PATTERN@, text@, 1)),
                    None => None,
                },
                old(self)@.fallback,
                startup_volume as int,
            ),
            start.warning == (match output {
                Some(text) => if level_of(spec_regex_capture(PERCENT_PATTERN@, text@, 1)) is Some {
                    None::<MixerWarning>
                } else {
                    Some(MixerWarning::ParseFailed)
                },
                None => Some(MixerWarning::CommandFailed),
            }),
            start.volume <= startup_volume,
            final(self)@ == (MixerState {
                throttle: old(self)@.throttle.holding(start.volume as int),
                ..old(self)@
            }),
    {
        match output {
            Some(text) => {
                let token = regex_capture(PERCENT_PATTERN, text, 1);
                match token {
                    Some(digits) => self.accept_level(Some(digits.as_str()), startup_volume),
                    None => self.accept_level(None, startup_volume),
                }
            },
            None => self.accept_failure(startup_volume),
        }
    }
}

} // verus!
