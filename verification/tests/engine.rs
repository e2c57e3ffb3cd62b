// Tests for the engine core: lifecycle, step accounting, adaptive rate
// control, and the bounded context-retry budget.

use simstream::context::ContextRetry;
use simstream::engine::EngineCore;
use simstream::errors::SimError;
use simstream::rate::RateController;

const TARGET_MHZ: u32 = 500_000; // 500 Hz
const FLOOR_MHZ: u32 = 100_000; // 100 Hz
const THRESHOLD: u32 = 50;

fn words_of_floats(values: &[f32]) -> Vec<u32> {
    values.iter().map(|v| v.to_bits()).collect()
}

fn test_engine(count: usize) -> EngineCore {
    let seed: Vec<f32> = (0..count * 4).map(|i| (i as f32) * 0.001).collect();
    EngineCore::new(count, words_of_floats(&seed), false, TARGET_MHZ, FLOOR_MHZ, THRESHOLD)
        .unwrap()
}

#[test]
fn test_simulation_engine_initialization() {
    let seed: Vec<f32> = vec![0.5; 1000 * 4];
    let engine = EngineCore::new(
        1000,
        words_of_floats(&seed),
        false,
        TARGET_MHZ,
        FLOOR_MHZ,
        THRESHOLD,
    );
    assert!(engine.is_ok(), "Simulation engine should initialize");
}

#[test]
fn test_simulation_engine_start_stop() {
    let mut engine = test_engine(1000);
    assert!(engine.start(), "Should start successfully");
    assert!(engine.is_running(), "Engine should be running");
    engine.stop();
    assert!(!engine.is_running());
}

#[test]
fn test_simulation_engine_get_state() {
    let mut engine = test_engine(100);
    engine.start();
    let state = engine.get_state();
    assert_eq!(state.len(), 100 * 4, "Should return correct number of boids");
}

#[test]
fn test_simulation_engine_num_boids() {
    let engine = test_engine(500);
    assert_eq!(engine.num_boids(), 500);
}

#[test]
fn test_simulation_engine_frame_count() {
    let mut engine = test_engine(100);
    let initial_count = engine.get_frame_count();
    engine.start();
    engine.after_step(1000, 42);
    engine.after_step(1200, 44);
    let new_count = engine.get_frame_count();
    assert!(new_count > initial_count, "Frame count should increase");
    assert_eq!(new_count, 2);
    assert_eq!(engine.get_last_update(), 44);
}

#[test]
fn test_simulation_engine_double_start() {
    let mut engine = test_engine(100);
    // First start must spawn the loop; a second start is a no-op that
    // must not spawn again.
    assert!(engine.start());
    assert!(!engine.start());
    assert!(engine.is_running());
    engine.stop();
}

#[test]
fn test_lifecycle_read_after_stop() {
    // stop() is cooperative; once the loop exits, a read still succeeds
    // on the last consistent model state.
    let mut engine = test_engine(10);
    engine.start();
    let before = engine.get_state();
    engine.stop();
    assert!(!engine.is_running());
    let after = engine.get_state();
    assert_eq!(before, after);
}

#[test]
fn test_after_step_sleep_budget() {
    let mut engine = test_engine(10);
    engine.start();
    // 500 Hz target: the period is 2000 us.
    let sleep = engine.after_step(1500, 1);
    assert_eq!(sleep, 500);
    let none = engine.after_step(2500, 2);
    assert_eq!(none, 0);
}

#[test]
fn test_rate_adaptation_degrades_after_threshold() {
    // A stub step that is artificially slow: after `threshold`
    // consecutive over-budget steps, the target rate drops by the
    // configured factor (x 0.9).
    let mut rc = RateController::new(TARGET_MHZ, FLOOR_MHZ, THRESHOLD).unwrap();
    let slow_step_us = 50_000; // far over the 2000 us budget
    for _ in 0..THRESHOLD {
        rc.record_step(slow_step_us);
    }
    assert_eq!(rc.target_mhz, 450_000);
    assert_eq!(rc.consecutive_delays, 0);
}

#[test]
fn test_rate_adaptation_never_rises_and_respects_floor() {
    let mut rc = RateController::new(TARGET_MHZ, FLOOR_MHZ, THRESHOLD).unwrap();
    let mut previous = rc.target_mhz;
    // Sustained overload: the rate only ever falls, and settles at the
    // configured floor, never below.
    for _ in 0..10_000 {
        rc.record_step(1_000_000);
        assert!(rc.target_mhz <= previous, "rate must never rise");
        assert!(rc.target_mhz >= FLOOR_MHZ, "rate must respect the floor");
        previous = rc.target_mhz;
    }
    assert_eq!(rc.target_mhz, FLOOR_MHZ);
    // Under-budget steps never raise it back up (one-directional policy).
    for _ in 0..1000 {
        rc.record_step(1);
        assert_eq!(rc.target_mhz, FLOOR_MHZ);
    }
}

#[test]
fn test_rate_reduction_is_unconditional() {
    // Just above the floor (100.9 Hz, floor 100 Hz): at the threshold the
    // target still drops — clamped to the floor — and the counter still
    // resets, however small the change.
    let mut rc = RateController::new(100_900, FLOOR_MHZ, THRESHOLD).unwrap();
    for _ in 0..THRESHOLD {
        rc.record_step(1_000_000);
    }
    assert_eq!(rc.target_mhz, FLOOR_MHZ);
    assert_eq!(rc.consecutive_delays, 0);
    // At the floor itself the counter keeps resetting at each threshold
    // instead of growing without bound.
    for _ in 0..THRESHOLD {
        rc.record_step(1_000_000);
    }
    assert_eq!(rc.target_mhz, FLOOR_MHZ);
    assert_eq!(rc.consecutive_delays, 0);
}

#[test]
fn test_rate_fast_step_resets_delay_counter() {
    let mut rc = RateController::new(TARGET_MHZ, FLOOR_MHZ, THRESHOLD).unwrap();
    for _ in 0..THRESHOLD - 1 {
        rc.record_step(50_000);
    }
    assert_eq!(rc.consecutive_delays, THRESHOLD - 1);
    rc.record_step(100); // under budget: reset immediately, no rate change
    assert_eq!(rc.consecutive_delays, 0);
    assert_eq!(rc.target_mhz, TARGET_MHZ);
}

#[test]
fn test_rate_rejects_bad_configuration() {
    assert!(matches!(
        RateController::new(50_000, 100_000, 50),
        Err(SimError::FramingError)
    ));
    assert!(matches!(RateController::new(100, 0, 50), Err(SimError::FramingError)));
    assert!(matches!(RateController::new(100, 1, 0), Err(SimError::FramingError)));
}

#[test]
fn test_step_history_is_bounded() {
    let mut engine = test_engine(10);
    engine.start();
    for i in 0..105u64 {
        engine.after_step(1000 + i, i);
    }
    // The history keeps the last 100 durations: the oldest fell off.
    assert_eq!(engine.history_us.len(), 100);
    assert_eq!(engine.history_us[0], 1000 + 5);
    assert_eq!(*engine.history_us.last().unwrap(), 1000 + 104);
}

#[test]
fn test_simulation_engine_consistency() {
    // Repeated reads always return valid, finite data of the full size.
    let mut engine = test_engine(100);
    engine.start();
    for _ in 0..5 {
        let state = engine.get_state();
        assert_eq!(state.len(), 100 * 4);
        assert!(
            state.iter().all(|w| f32::from_bits(*w).is_finite()),
            "All values should be finite"
        );
    }
    engine.stop();
}

#[test]
fn test_context_retry_budget() {
    // Three attempts: two failures may be retried, the third failure
    // surfaces ContextUnavailable.
    let mut retry = ContextRetry::new(3);
    assert!(retry.on_failure().is_ok());
    assert!(retry.on_failure().is_ok());
    match retry.on_failure() {
        Err(SimError::ContextUnavailable) => {}
        _ => panic!("expected the budget to be exhausted"),
    }
}
