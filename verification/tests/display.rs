use std::cell::Cell;

use rotary_volume::display_updater::{
    volume_text, DisplayUpdater, Font, Frame, Label, WELCOME_HOLD,
};
use rotary_volume::throttle::SinkError;

fn volume_frame(text: &str) -> Frame {
    Frame { labels: vec![Label { text: text.to_string(), x: 0, y: 12, font: Font::Large }] }
}

#[test]
fn volume_text_names_the_volume() {
    assert_eq!(volume_text(0), "Volume: 0");
    assert_eq!(volume_text(57), "Volume: 57");
    assert_eq!(volume_text(100), "Volume: 100");
    assert_eq!(volume_text(-3), "Volume: -3");
}

#[test]
fn write_to_display_puts_the_text_on_the_first_line() {
    assert_eq!(
        DisplayUpdater::write_to_display("Volume: 57".to_string()),
        volume_frame("Volume: 57")
    );
}

#[test]
fn welcome_shows_banner_and_then_the_volume() {
    let updater = DisplayUpdater::new(35).unwrap();
    let welcome = updater.show_welcome("192.168.1.20");
    assert_eq!(
        welcome.banner,
        Frame {
            labels: vec![
                Label { text: "Starting...".to_string(), x: 0, y: 12, font: Font::Large },
                Label { text: "192.168.1.20".to_string(), x: 0, y: 62, font: Font::Small },
            ],
        }
    );
    assert_eq!(welcome.hold, 3_000_000);
    assert_eq!(welcome.hold, WELCOME_HOLD);
    assert_eq!(welcome.after, volume_frame("Volume: 35"));
}

#[test]
fn display_update_renders_a_new_volume_once() {
    let frames = Cell::new(Vec::new());
    let mut updater = DisplayUpdater::new(0).unwrap();
    let render = |frame: Frame| -> Result<(), SinkError> {
        let mut seen = frames.take();
        seen.push(frame);
        frames.set(seen);
        Ok(())
    };
    assert_eq!(updater.update(0, 10, render), Ok(()));
    assert_eq!(updater.update(42, 20, render), Ok(()));
    assert_eq!(updater.update(42, 30, render), Ok(()));
    assert_eq!(frames.take(), vec![volume_frame("Volume: 42")]);
    assert_eq!(updater.volume(), 42);
}

#[test]
fn display_update_keeps_state_when_rendering_fails() {
    let mut updater = DisplayUpdater::new(10).unwrap();
    let failed = updater.update(11, 5, |_| -> Result<(), SinkError> {
        Err(SinkError::WriteFailed)
    });
    assert_eq!(failed, Err(SinkError::WriteFailed));
    assert_eq!(updater.volume(), 10);
    let calls = Cell::new(0);
    let again = updater.update(11, 6, |_| -> Result<(), SinkError> {
        calls.set(calls.get() + 1);
        Ok(())
    });
    assert_eq!(again, Ok(()));
    assert_eq!(calls.get(), 1);
    assert_eq!(updater.volume(), 11);
}

#[test]
fn display_update_is_spaced_out_by_the_interval() {
    let calls = Cell::new(0);
    let mut updater = DisplayUpdater::new(0).unwrap().with_min_interval(500_000);
    let render = |_: Frame| -> Result<(), SinkError> {
        calls.set(calls.get() + 1);
        Ok(())
    };
    assert_eq!(updater.update(1, 1_000, render), Ok(()));
    assert_eq!(updater.update(2, 400_000, render), Ok(()));
    assert_eq!(calls.get(), 1);
    assert_eq!(updater.volume(), 1);
    assert_eq!(updater.update(2, 501_000, render), Ok(()));
    assert_eq!(calls.get(), 2);
    assert_eq!(updater.volume(), 2);
}
