//! The display sink: what to draw.
//!
//! Drawing and flushing are left to the caller. The updater hands out
//! frames, each a list of labels with their place and font, and the caller
//! clears the display, draws the labels of a frame and flushes.

use vstd::prelude::*;
use vstd::string::*;
use crate::text::{decimal_text, spec_decimal_text};
use crate::throttle::{SinkError, Throttle, ThrottleState};

verus! {

/// For how long the banner stays on the display.
pub const WELCOME_HOLD: u64 = 3_000_000;

/// The column at which every label starts.
pub const LABEL_X: i32 = 0;

/// The baseline of the first line of a frame.
pub const FIRST_LINE_Y: i32 = 12;

/// The baseline of the last line of a frame.
pub const LAST_LINE_Y: i32 = 62;

/// The fonts of the display.
#[derive(Clone, Copy, Debug, PartialEq, Eq)]
pub enum Font {
    /// Ten by twenty pixels.
    Large,
    /// Seven by fourteen pixels.
    Small,
}

/// A text on the display as mathematical values.
pub struct LabelView {
    /// The text.
    pub text: Seq<char>,
    /// The column of its first pixel.
    pub x: int,
    /// The row of its baseline.
    pub y: int,
    /// Its font.
    pub font: Font,
}

/// A text on the display.
#[derive(Clone, Debug, PartialEq, Eq)]
pub struct Label {
    /// The text.
    pub text: String,
    /// The column of its first pixel.
    pub x: i32,
    /// The row of its baseline.
    pub y: i32,
    /// Its font.
    pub font: Font,
}

impl View for Label {
    type V = LabelView;

    open spec fn view(&self) -> LabelView {
        LabelView { text: self.text@, x: self.x as int, y: self.y as int, font: self.font }
    }
}

/// What the display shows at one time: the labels drawn on a cleared
/// display, in this order.
#[derive(Clone, Debug, PartialEq, Eq)]
pub struct Frame {
    /// The labels.
    pub labels: Vec<Label>,
}

impl View for Frame {
    type V = Seq<LabelView>;

    open spec fn view(&self) -> Seq<LabelView> {
        Seq::new(self.labels@.len(), |i: int| self.labels@[i]@)
    }
}

/// The banner, how long it stays, and what replaces it.
pub struct Welcome {
    /// The frame shown first.
    pub banner: Frame,
    /// For how many microseconds it stays.
    pub hold: u64,
    /// The frame shown after that.
    pub after: Frame,
}

/// The text that shows `volume`.
pub open spec fn spec_volume_text(volume: int) -> Seq<char> {
    "Volume: "@ + spec_decimal_text(volume)
}

/// The frame that shows `text` alone, in the large font on the first line.
pub open spec fn spec_text_frame(text: Seq<char>) -> Seq<LabelView> {
    seq![LabelView { text, x: LABEL_X as int, y: FIRST_LINE_Y as int, font: Font::Large }]
}

/// The banner: a greeting in the large font on the first line, and the
/// address `ip_address` in the small font on the last line.
pub open spec fn spec_banner(ip_address: Seq<char>) -> Seq<LabelView> {
    seq![
        LabelView {
            text: "Starting..."@,
            x: LABEL_X as int,
            y: FIRST_LINE_Y as int,
            font: Font::Large,
        },
        LabelView { text: ip_address, x: LABEL_X as int, y: LAST_LINE_Y as int, font: Font::Small },
    ]
}

/// Shows the volume on the display.
pub struct DisplayUpdater {
    throttle: Throttle,
}

impl View for DisplayUpdater {
    type V = ThrottleState;

    closed spec fn view(&self) -> ThrottleState {
        self.throttle@
    }
}

/// The text that shows `volume`.
pub fn volume_text(volume: i32) -> (text: String)
    ensures
        text@ == spec_volume_text(volume as int),
{
    let mut text = "Volume: ".to_owned();
    let number = decimal_text(volume);
    text.append(number.as_str());
    text
}

impl DisplayUpdater {
    /// An updater whose display is taken to show `volume`. Writes are not
    /// spaced out until an interval is set. Never fails.
    pub fn new(volume: i32) -> (updater: Result<DisplayUpdater, SinkError>)
        ensures
            updater is Ok,
            updater->Ok_0@ == (ThrottleState {
                last_applied_value: volume as int,
                last_applied_time: None,
                min_interval: 0,
            }),
    {
        Ok(DisplayUpdater { throttle: Throttle::new(volume, 0) })
    }

    /// The same updater with writes spaced out by `min_interval`
    /// microseconds or more.
    pub fn with_min_interval(self, min_interval: u64) -> (updater: DisplayUpdater)
        ensures
            updater@ == self@.with_interval(min_interval as int),
    {
        let mut updater = self;
        updater.throttle.set_min_interval(min_interval);
        updater
    }

    /// The volume that the display is taken to show.
    pub fn volume(&self) -> (volume: i32)
        ensures
            volume == self@.last_applied_value,
    {
        self.throttle.last_applied_value()
    }

    /// The frame that shows `volume_text` alone.
    pub fn write_to_display(volume_text: String) -> (frame: Frame)
        ensures
            frame@ == spec_text_frame(volume_text@),
    {
        let mut labels: Vec<Label> = Vec::new();
        labels.push(Label { text: volume_text, x: LABEL_X, y: FIRST_LINE_Y, font: Font::Large });
        let frame = Frame { labels };
        frame
    }

    /// Shows `volume` through `render`, which is handed the frame to draw,
    /// where a write is due at `now`. A volume that is not due is dropped:
    /// `render` is not called and the result is `Ok`. Where `render` fails,
    /// its error is returned and the display is taken to show what it
    /// showed.
    pub fn update<E, F: FnOnce(Frame) -> Result<(), E>>(
        &mut self,
        volume: i32,
        now: u64,
        render: F,
    ) -> (result: Result<(), E>)
        requires
            old(self)@.due(volume as int, now as int) ==> forall|frame: Frame|
                frame@ == spec_text_frame(spec_volume_text(volume as int)) ==> call_requires(
                    render,
                    (frame,),
                ),
        ensures
            !old(self)@.due(volume as int, now as int) ==> result is Ok,
            old(self)@.due(volume as int, now as int) ==> exists|frame: Frame|
                frame@ == spec_text_frame(spec_volume_text(volume as int)) && call_ensures(
                    render,
                    (frame,),
                    result,
                ),
            final(self)@ == old(self)@.step(volume as int, now as int, result is Ok),
    {
        if !self.throttle.is_due(volume, now) {
            return Ok(());
        }
        let frame = DisplayUpdater::write_to_display(volume_text(volume));
        let outcome = render(frame);
        if outcome.is_ok() {
            self.throttle.record(volume, now);
        }
        outcome
    }

    /// What to show at start: the banner with the address `ip_address`,
    /// and after [`WELCOME_HOLD`] the volume that the display is taken to
    /// show.
    pub fn show_welcome(&self, ip_address: &str) -> (welcome: Welcome)
        ensures
            welcome.banner@ == spec_banner(ip_address@),
            welcome.hold == WELCOME_HOLD,
            welcome.after@ == spec_text_frame(spec_volume_text(self@.last_applied_value)),
    {
        let mut labels: Vec<Label> = Vec::new();
        labels.push(
            Label { text: "Starting...".to_owned(), x: LABEL_X, y: FIRST_LINE_Y, font: Font::Large },
        );
        labels.push(
            Label { text: ip_address.to_owned(), x: LABEL_X, y: LAST_LINE_Y, font: Font::Small },
        );
        let banner = Frame { labels };
        let after = DisplayUpdater::write_to_display(
            volume_text(self.throttle.last_applied_value()),
        );
        Welcome { banner, hold: WELCOME_HOLD, after }
    }
}

} // verus!
