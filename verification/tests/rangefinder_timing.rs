//! Tests of the echo timing: the speed-of-sound formula on synthetic
//! edges and the distinct failures.

use tank_monitor::rangefinder::{
    distance_from_elapsed, measure_from_events, EchoEvent, EchoLevel, EchoTracker, RangingError,
    SPEED_OF_SOUND_MM_PER_S,
};

fn rising(at_ns: u64) -> EchoEvent {
    EchoEvent { level: EchoLevel::High, at_ns }
}

fn falling(at_ns: u64) -> EchoEvent {
    EchoEvent { level: EchoLevel::Low, at_ns }
}

#[test]
fn synthetic_echo_gives_the_documented_distance() {
    // An echo of 1.25 milliseconds at 340.8 metres per second travels
    // 426 millimetres there and back: the distance is 213 millimetres.
    let events = vec![rising(0), falling(1_250_000)];
    assert_eq!(measure_from_events(&events), Ok(213));
}

#[test]
fn distance_follows_the_speed_of_sound_formula() {
    assert_eq!(distance_from_elapsed(0), 0);
    // Two seconds of echo: one second each way, one speed of sound.
    assert_eq!(distance_from_elapsed(2_000_000_000), SPEED_OF_SOUND_MM_PER_S);
    // 1 microsecond less than 2 ms rounds down.
    let elapsed: u64 = 1_999_999;
    let expected = (elapsed as u128) * (SPEED_OF_SOUND_MM_PER_S as u128) / 2_000_000_000;
    assert_eq!(distance_from_elapsed(elapsed), expected as u64);
}

#[test]
fn no_rising_edge_is_a_distinct_timeout() {
    let events: Vec<EchoEvent> = Vec::new();
    assert_eq!(measure_from_events(&events), Err(RangingError::NoRisingEdgeDetected));
    // A falling edge alone does not count as a rising one.
    let events = vec![falling(5_000)];
    assert_eq!(measure_from_events(&events), Err(RangingError::NoRisingEdgeDetected));
}

#[test]
fn rising_without_falling_is_a_distinct_timeout() {
    let events = vec![rising(1_000)];
    assert_eq!(measure_from_events(&events), Err(RangingError::NoFallingEdgeDetected));
    let events = vec![rising(1_000), rising(2_000)];
    assert_eq!(measure_from_events(&events), Err(RangingError::NoFallingEdgeDetected));
}

#[test]
fn only_the_first_echo_counts() {
    // Extra edges after the first full echo are ignored.
    let events = vec![rising(1_000_000), falling(3_000_000), rising(4_000_000), falling(9_000_000)];
    let expected = distance_from_elapsed(2_000_000);
    assert_eq!(measure_from_events(&events), Ok(expected));
}

#[test]
fn tracker_records_first_rise_and_first_fall() {
    let mut tracker = EchoTracker::new();
    assert_eq!(tracker.elapsed(), Err(RangingError::NoRisingEdgeDetected));
    tracker.on_edge(EchoLevel::High, 100);
    assert_eq!(tracker.elapsed(), Err(RangingError::NoFallingEdgeDetected));
    tracker.on_edge(EchoLevel::High, 200);
    tracker.on_edge(EchoLevel::Low, 350);
    tracker.on_edge(EchoLevel::Low, 900);
    assert_eq!(tracker.elapsed(), Ok(250));
}
