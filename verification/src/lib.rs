//! Volume control driven by a rotary encoder.
//!
//! The crate holds the decisions of the control pipeline as verified state
//! machines over plain values: the debounced quadrature decoder and its
//! sleep while idle, the latest-value coalescing of the event channel, the
//! throttles in front of the two slow sinks, and the interfaces of the
//! mixer and the display. Reading pins, clocks and processes is left to the
//! caller, which hands in samples and timestamps in microseconds.

pub mod amixer_updater;
pub mod clock;
pub mod display_updater;
pub mod encoder_laws;
pub mod latest_value;
pub mod load_config;
pub mod rotary_controller;
pub mod text;
pub mod throttle;
