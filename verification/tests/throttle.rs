use std::cell::Cell;

use rotary_volume::throttle::{SinkError, Throttle};

#[test]
fn new_throttle_remembers_what_it_was_given() {
    let throttle = Throttle::new(12, 250_000);
    assert_eq!(throttle.last_applied_value(), 12);
    assert_eq!(throttle.last_applied_time(), None);
    assert_eq!(throttle.min_interval(), 250_000);
}

#[test]
fn same_value_twice_is_applied_once() {
    let calls = Cell::new(0);
    let mut throttle = Throttle::new(0, 250_000);
    let sink = |_: i32| -> Result<(), SinkError> {
        calls.set(calls.get() + 1);
        Ok(())
    };
    assert_eq!(throttle.update(40, 1_000, sink), Ok(()));
    assert_eq!(throttle.update(40, 1_000, sink), Ok(()));
    assert_eq!(calls.get(), 1);
    assert_eq!(throttle.last_applied_value(), 40);
    assert_eq!(throttle.last_applied_time(), Some(1_000));
    // Also long after the interval.
    assert_eq!(throttle.update(40, 9_000_000, sink), Ok(()));
    assert_eq!(calls.get(), 1);
}

#[test]
fn value_held_by_the_sink_is_not_written() {
    let calls = Cell::new(0);
    let mut throttle = Throttle::new(7, 0);
    let result = throttle.update(7, 5, |_| -> Result<(), SinkError> {
        calls.set(calls.get() + 1);
        Ok(())
    });
    assert_eq!(result, Ok(()));
    assert_eq!(calls.get(), 0);
    assert_eq!(throttle.last_applied_time(), None);
}

#[test]
fn second_value_within_the_interval_is_dropped_and_applied_later() {
    let written = Cell::new(Vec::new());
    let mut throttle = Throttle::new(0, 250_000);
    let sink = |value: i32| -> Result<(), SinkError> {
        let mut seen = written.take();
        seen.push(value);
        written.set(seen);
        Ok(())
    };
    assert_eq!(throttle.update(10, 1_000, sink), Ok(()));
    assert_eq!(throttle.update(20, 1_000 + 249_999, sink), Ok(()));
    assert_eq!(written.take(), vec![10]);
    assert_eq!(throttle.last_applied_value(), 10);
    assert_eq!(throttle.last_applied_time(), Some(1_000));
    assert!(!throttle.is_due(20, 1_000 + 249_999));
    assert!(throttle.is_due(20, 1_000 + 250_000));
    assert_eq!(throttle.update(20, 1_000 + 250_000, sink), Ok(()));
    assert_eq!(written.take(), vec![20]);
    assert_eq!(throttle.last_applied_value(), 20);
    assert_eq!(throttle.last_applied_time(), Some(251_000));
}

#[test]
fn failed_write_is_reported_and_not_recorded() {
    let calls = Cell::new(0);
    let mut throttle = Throttle::new(0, 250_000);
    let failing = |_: i32| -> Result<(), SinkError> {
        calls.set(calls.get() + 1);
        Err(SinkError::WriteFailed)
    };
    assert_eq!(throttle.update(30, 1_000, failing), Err(SinkError::WriteFailed));
    assert_eq!(throttle.last_applied_value(), 0);
    assert_eq!(throttle.last_applied_time(), None);
    // The same value is tried again at the next request.
    assert_eq!(throttle.update(30, 1_001, failing), Err(SinkError::WriteFailed));
    assert_eq!(calls.get(), 2);
    assert_eq!(
        throttle.update(30, 1_002, |_| -> Result<(), SinkError> { Ok(()) }),
        Ok(())
    );
    assert_eq!(throttle.last_applied_value(), 30);
    assert_eq!(throttle.last_applied_time(), Some(1_002));
}

#[test]
fn sink_is_handed_the_new_value() {
    let seen = Cell::new(None);
    let mut throttle = Throttle::new(0, 0);
    let result = throttle.update(-17, 3, |value| -> Result<(), SinkError> {
        seen.set(Some(value));
        Ok(())
    });
    assert_eq!(result, Ok(()));
    assert_eq!(seen.get(), Some(-17));
}

#[test]
fn record_sync_and_interval_change_the_state() {
    let mut throttle = Throttle::new(1, 100);
    throttle.record(2, 50);
    assert_eq!(throttle.last_applied_value(), 2);
    assert_eq!(throttle.last_applied_time(), Some(50));
    throttle.sync(9);
    assert_eq!(throttle.last_applied_value(), 9);
    assert_eq!(throttle.last_applied_time(), Some(50));
    assert!(!throttle.is_due(3, 149));
    throttle.set_min_interval(99);
    assert_eq!(throttle.min_interval(), 99);
    assert!(throttle.is_due(3, 149));
    assert!(!throttle.is_due(9, 10_000));
}

#[test]
fn clock_before_the_last_write_counts_as_no_time() {
    let mut throttle = Throttle::new(0, 10);
    throttle.record(1, 1_000);
    assert!(!throttle.is_due(2, 500));
    throttle.set_min_interval(0);
    assert!(throttle.is_due(2, 500));
}
