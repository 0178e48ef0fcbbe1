//! Tests of the sampling loop state and the shutdown coordinator.

use tank_monitor::lifecycle::{exit_code, ExitStatus, LifecycleCoordinator, LifecyclePhase};
use tank_monitor::rangefinder::RangingError;
use tank_monitor::sampler::{MeasureOutcome, SamplerPhase, SensorSampler};
use tank_monitor::tank::CuboidTank;

#[test]
fn snapshot_needs_a_landed_sample() {
    let tank = CuboidTank::new(2980, 1480, 1500);
    let sampler = SensorSampler::new(100, 10);
    assert_eq!(sampler.snapshot(&tank, 40), None);
}

#[test]
fn accepted_samples_feed_the_snapshot() {
    let tank = CuboidTank::new(2980, 1480, 1500);
    let mut sampler = SensorSampler::new(100, 10);
    sampler.on_iteration(&MeasureOutcome::Distance(540));
    let snap = sampler.snapshot(&tank, 40).unwrap();
    assert_eq!(snap.filled_height_mm, 1000);
    assert_eq!(snap.volume_ml, 4_410_400);
    assert_eq!(snap.percent_hundredths, 6667);
}

#[test]
fn snapshot_is_due_every_interval_of_accepted_samples() {
    let mut sampler = SensorSampler::new(100, 3);
    assert!(!sampler.on_iteration(&MeasureOutcome::Distance(500)));
    assert!(!sampler.on_iteration(&MeasureOutcome::Distance(501)));
    assert!(sampler.on_iteration(&MeasureOutcome::Distance(502)));
    assert!(!sampler.on_iteration(&MeasureOutcome::Distance(503)));
    assert!(!sampler.on_iteration(&MeasureOutcome::Distance(504)));
    assert!(sampler.on_iteration(&MeasureOutcome::Distance(505)));
}

#[test]
fn failed_measurements_are_swallowed_and_do_not_advance_the_cadence() {
    let tank = CuboidTank::new(2980, 1480, 1500);
    let mut sampler = SensorSampler::new(100, 2);
    assert!(!sampler.on_iteration(&MeasureOutcome::Distance(540)));
    assert!(!sampler.on_iteration(&MeasureOutcome::Failed(RangingError::NoRisingEdgeDetected)));
    assert!(!sampler.on_iteration(&MeasureOutcome::Failed(RangingError::HardwareFault)));
    // The pipeline keeps running: the next accepted sample publishes.
    assert!(sampler.on_iteration(&MeasureOutcome::Distance(541)));
    assert_eq!(sampler.phase(), SamplerPhase::Running);
    // The failed attempts did not pollute the window.
    let snap = sampler.snapshot(&tank, 40).unwrap();
    assert_eq!(snap.filled_height_mm, 1000);
}

#[test]
fn cancellation_finishes_the_inflight_measurement_then_stops() {
    let tank = CuboidTank::new(2980, 1480, 1500);
    let mut sampler = SensorSampler::new(100, 10);
    assert_eq!(sampler.phase(), SamplerPhase::Running);
    sampler.observe_cancellation();
    assert_eq!(sampler.phase(), SamplerPhase::Stopping);
    sampler.on_iteration(&MeasureOutcome::Distance(540));
    assert_eq!(sampler.phase(), SamplerPhase::Stopped);
    // The in-flight sample still landed before the stop.
    assert!(sampler.snapshot(&tank, 40).is_some());
    // A later cancellation notice changes nothing.
    sampler.observe_cancellation();
    assert_eq!(sampler.phase(), SamplerPhase::Stopped);
}

#[test]
fn first_signal_initiates_shutdown_and_duplicates_are_noops() {
    let mut coordinator = LifecycleCoordinator::new();
    assert_eq!(coordinator.phase(), LifecyclePhase::Active);
    assert!(!coordinator.signal_seen());
    assert!(coordinator.on_signal());
    assert_eq!(coordinator.phase(), LifecyclePhase::ShuttingDown);
    assert!(coordinator.signal_seen());
    // The second and third notifications are no-ops.
    assert!(!coordinator.on_signal());
    assert!(!coordinator.on_signal());
    assert_eq!(coordinator.phase(), LifecyclePhase::ShuttingDown);
    let status = coordinator.finish(false);
    assert_eq!(status, ExitStatus::Controlled);
    assert_eq!(coordinator.phase(), LifecyclePhase::Terminated);
    assert_eq!(exit_code(&status), 0);
}

#[test]
fn server_crash_ends_the_process_abnormally() {
    let mut coordinator = LifecycleCoordinator::new();
    coordinator.on_server_ended();
    assert_eq!(coordinator.phase(), LifecyclePhase::ShuttingDown);
    assert!(!coordinator.signal_seen());
    let status = coordinator.finish(true);
    assert_eq!(status, ExitStatus::Abnormal);
    assert_eq!(exit_code(&status), 1);
}
