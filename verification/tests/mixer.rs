use std::cell::Cell;

use rotary_volume::amixer_updater::{
    AmixerUpdater, MixerWarning, StartingVolume, FALLBACK_VOLUME, PERCENT_PATTERN,
};
use rotary_volume::throttle::SinkError;

const ANSWER: &str = "Simple mixer control 'Digital',0\n  Capabilities: pvolume\n  Limits: \
                      Playback 0 - 207\n  Front Left: Playback 125 [45%] [-41.00dB]\n  Front \
                      Right: Playback 130 [60%] [-38.50dB]\n";

fn texts(arguments: &[&str]) -> Vec<String> {
    arguments.iter().map(|text| text.to_string()).collect()
}

#[test]
fn new_updater_takes_the_control_or_default() {
    let named = AmixerUpdater::new(Some("Digital".to_string()), 3).unwrap();
    assert_eq!(named.device(), "Digital");
    assert_eq!(named.volume(), 3);
    let unnamed = AmixerUpdater::new(None, 0).unwrap();
    assert_eq!(unnamed.device(), "default");
    assert_eq!(unnamed.volume(), 0);
}

#[test]
fn arguments_name_the_control_and_the_level() {
    let updater = AmixerUpdater::new(Some("Digital".to_string()), 0).unwrap();
    assert_eq!(updater.set_arguments(35), texts(&["set", "-M", "Digital", "35%"]));
    assert_eq!(updater.set_arguments(0), texts(&["set", "-M", "Digital", "0%"]));
    assert_eq!(updater.set_arguments(100), texts(&["set", "-M", "Digital", "100%"]));
    assert_eq!(updater.get_arguments(), texts(&["get", "Digital", "-M"]));
}

#[test]
fn starting_volume_is_the_first_level_in_the_answer() {
    assert_eq!(PERCENT_PATTERN, "(\\d+)%");
    let mut updater = AmixerUpdater::new(Some("Digital".to_string()), 0).unwrap();
    let start = updater.get_starting_volume(Some(ANSWER), 80);
    assert_eq!(start, StartingVolume { volume: 45, warning: None });
    assert_eq!(updater.volume(), 45);
}

#[test]
fn starting_volume_is_not_above_the_ceiling() {
    let mut updater = AmixerUpdater::new(None, 0).unwrap();
    let start = updater.get_starting_volume(Some(ANSWER), 30);
    assert_eq!(start, StartingVolume { volume: 30, warning: None });
    assert_eq!(updater.volume(), 30);
    let start = updater.get_starting_volume(Some(ANSWER), 45);
    assert_eq!(start.volume, 45);
}

#[test]
fn malformed_answer_gives_the_fallback_and_one_warning() {
    assert_eq!(FALLBACK_VOLUME, 50);
    let mut updater = AmixerUpdater::new(None, 0).unwrap();
    let start = updater.get_starting_volume(Some("amixer: Unable to find simple control"), 100);
    assert_eq!(start.volume, 50);
    assert_eq!(start.warning, Some(MixerWarning::ParseFailed));
    assert_eq!(start.warning.iter().count(), 1);
    assert_eq!(updater.volume(), 50);
}

#[test]
fn answers_without_a_readable_level_give_the_fallback() {
    let answers = ["", "%", "45 %", "[%45]", "99999999999%", "\u{0663}\u{0664}%"];
    for answer in answers {
        let mut updater = AmixerUpdater::new(None, 0).unwrap();
        let start = updater.get_starting_volume(Some(answer), 100);
        assert_eq!(
            start,
            StartingVolume { volume: 50, warning: Some(MixerWarning::ParseFailed) },
            "for {:?}",
            answer
        );
    }
}

#[test]
fn level_is_found_anywhere_in_the_answer() {
    let mut updater = AmixerUpdater::new(None, 0).unwrap();
    assert_eq!(updater.get_starting_volume(Some("7%"), 100).volume, 7);
    assert_eq!(updater.get_starting_volume(Some("abc12%def34%"), 100).volume, 12);
    assert_eq!(updater.get_starting_volume(Some("x-5%"), 100).volume, 5);
    assert_eq!(updater.get_starting_volume(Some("007%"), 100).volume, 7);
    assert_eq!(updater.get_starting_volume(Some("12 34%"), 100).volume, 34);
}

#[test]
fn failed_command_gives_the_fallback_and_a_warning() {
    let mut updater = AmixerUpdater::new(None, 0).unwrap();
    let start = updater.get_starting_volume(None, 100);
    assert_eq!(
        start,
        StartingVolume { volume: 50, warning: Some(MixerWarning::CommandFailed) }
    );
    assert_eq!(updater.volume(), 50);
}

#[test]
fn fallback_is_not_above_the_ceiling_either() {
    let mut updater = AmixerUpdater::new(None, 0).unwrap();
    assert_eq!(updater.get_starting_volume(None, 20).volume, 20);
    assert_eq!(updater.get_starting_volume(Some("nothing"), 49).volume, 49);
    assert_eq!(updater.get_starting_volume(Some("nothing"), 50).volume, 50);
}

#[test]
fn fallback_can_be_set() {
    let mut updater = AmixerUpdater::new(None, 0).unwrap().with_fallback(25);
    assert_eq!(updater.get_starting_volume(None, 100).volume, 25);
    assert_eq!(updater.accept_level(None, 100).volume, 25);
    assert_eq!(updater.accept_failure(10).volume, 10);
}

#[test]
fn accepted_level_is_the_number_of_the_token() {
    let mut updater = AmixerUpdater::new(None, 0).unwrap();
    assert_eq!(
        updater.accept_level(Some("64"), 100),
        StartingVolume { volume: 64, warning: None }
    );
    assert_eq!(
        updater.accept_level(Some("64"), 60),
        StartingVolume { volume: 60, warning: None }
    );
    assert_eq!(
        updater.accept_level(Some("6four"), 60),
        StartingVolume { volume: 50, warning: Some(MixerWarning::ParseFailed) }
    );
    assert_eq!(
        updater.accept_level(None, 60),
        StartingVolume { volume: 50, warning: Some(MixerWarning::ParseFailed) }
    );
    assert_eq!(updater.volume(), 50);
}

#[test]
fn mixer_update_runs_the_set_command_for_a_new_volume() {
    let runs = Cell::new(Vec::new());
    let mut updater = AmixerUpdater::new(Some("Digital".to_string()), 0).unwrap();
    let run = |arguments: Vec<String>| -> Result<(), SinkError> {
        let mut seen = runs.take();
        seen.push(arguments);
        runs.set(seen);
        Ok(())
    };
    assert_eq!(updater.update(0, 10, run), Ok(()));
    assert_eq!(updater.update(35, 20, run), Ok(()));
    assert_eq!(updater.update(35, 21, run), Ok(()));
    assert_eq!(runs.take(), vec![texts(&["set", "-M", "Digital", "35%"])]);
    assert_eq!(updater.volume(), 35);
}

#[test]
fn mixer_update_keeps_state_when_the_command_fails() {
    let calls = Cell::new(0);
    let mut updater = AmixerUpdater::new(None, 0).unwrap();
    let failing = |_: Vec<String>| -> Result<(), SinkError> {
        calls.set(calls.get() + 1);
        Err(SinkError::WriteFailed)
    };
    assert_eq!(updater.update(5, 1, failing), Err(SinkError::WriteFailed));
    assert_eq!(updater.volume(), 0);
    assert_eq!(updater.update(5, 2, failing), Err(SinkError::WriteFailed));
    assert_eq!(calls.get(), 2);
}

#[test]
fn mixer_update_is_spaced_out_by_the_interval() {
    let calls = Cell::new(0);
    let mut updater = AmixerUpdater::new(None, 0).unwrap().with_min_interval(250_000);
    let run = |_: Vec<String>| -> Result<(), SinkError> {
        calls.set(calls.get() + 1);
        Ok(())
    };
    assert_eq!(updater.update(1, 0, run), Ok(()));
    assert_eq!(updater.update(2, 249_999, run), Ok(()));
    assert_eq!(calls.get(), 1);
    assert_eq!(updater.volume(), 1);
    assert_eq!(updater.update(2, 250_000, run), Ok(()));
    assert_eq!(calls.get(), 2);
    assert_eq!(updater.volume(), 2);
}
