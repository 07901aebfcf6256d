use rotary_volume::latest_value::{
    cycle_remainder, latest, received, ChannelError, MAIN_LOOP_INTERVAL,
};

#[test]
fn latest_of_nothing_is_none() {
    assert_eq!(latest(&Vec::new()), None);
}

#[test]
fn latest_is_the_last_that_was_sent() {
    assert_eq!(latest(&vec![51]), Some(51));
    assert_eq!(latest(&vec![51, 52, 53, 52]), Some(52));
    assert_eq!(latest(&vec![9, 9, 9]), Some(9));
}

#[test]
fn later_events_hide_earlier_ones() {
    let earlier = vec![1, 2, 3];
    let later = vec![7, 8];
    let mut both = earlier.clone();
    both.extend(later.iter());
    assert_eq!(latest(&both), latest(&later));
    let mut alone = earlier.clone();
    alone.extend(Vec::<i32>::new());
    assert_eq!(latest(&alone), latest(&earlier));
}

#[test]
fn closed_channel_is_a_failure() {
    assert_eq!(received(None), Err(ChannelError::ChannelClosed));
    assert_eq!(received(Some(64)), Ok(64));
}

#[test]
fn cycle_remainder_fills_the_pass() {
    assert_eq!(MAIN_LOOP_INTERVAL, 50_000);
    assert_eq!(cycle_remainder(1_000, 1_000), 50_000);
    assert_eq!(cycle_remainder(1_000, 13_500), 37_500);
    assert_eq!(cycle_remainder(1_000, 50_999), 1);
    assert_eq!(cycle_remainder(1_000, 51_000), 0);
    assert_eq!(cycle_remainder(1_000, 900_000), 0);
    assert_eq!(cycle_remainder(1_000, 10), 50_000);
}
