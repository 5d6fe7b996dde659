//! Tests of the angle-to-duty-cycle linear calibration.

use servo_arm::calibration::{compute_duty_cycle, linear_map};
use servo_arm::settings::ServoSettings;

#[test]
fn test_compute_duty_cycle() {
    // The full duty-cycle range over 0..180 degrees, sampled at 90 degrees,
    // yields exactly half.
    let result = compute_duty_cycle(0, 1_000_000, 0, 180_000, 90_000);
    let expected_result = 500_000;
    assert_eq!(result, expected_result);
}

#[test]
fn test_duty_cycle_at_range_ends() {
    let s = ServoSettings::new();
    let at_start = compute_duty_cycle(
        s.start_duty_cycle,
        s.end_duty_cycle,
        s.start_angle,
        s.end_angle,
        s.start_angle,
    );
    let at_end = compute_duty_cycle(
        s.start_duty_cycle,
        s.end_duty_cycle,
        s.start_angle,
        s.end_angle,
        s.end_angle,
    );
    assert_eq!(at_start, s.start_duty_cycle);
    assert_eq!(at_end, s.end_duty_cycle);
}

#[test]
fn test_duty_cycle_monotonic_samples() {
    let s = ServoSettings::new();
    let mut previous = compute_duty_cycle(
        s.start_duty_cycle,
        s.end_duty_cycle,
        s.start_angle,
        s.end_angle,
        -90_000,
    );
    let mut angle: i64 = -90_000 + 10_000;
    while angle <= 90_000 {
        let duty = compute_duty_cycle(
            s.start_duty_cycle,
            s.end_duty_cycle,
            s.start_angle,
            s.end_angle,
            angle,
        );
        assert!(duty >= previous);
        previous = duty;
        angle += 10_000;
    }
}

#[test]
fn test_duty_cycle_outside_calibrated_range() {
    // The remap is a general linear map, not limited to the calibrated range.
    assert_eq!(compute_duty_cycle(0, 1_000_000, 0, 180_000, 270_000), 1_500_000);
    assert_eq!(compute_duty_cycle(0, 1_000_000, 0, 180_000, -90_000), -500_000);
}

#[test]
fn test_linear_map_basic() {
    assert_eq!(linear_map(5, 0, 10, 0, 100), 50);
    assert_eq!(linear_map(0, 0, 10, 20, 40), 20);
    assert_eq!(linear_map(10, 0, 10, 20, 40), 40);
}

#[test]
fn test_linear_map_descending_input_range() {
    // With the input bounds reversed the map still lands on the right ends.
    assert_eq!(linear_map(10, 10, 0, 20, 40), 20);
    assert_eq!(linear_map(0, 10, 0, 20, 40), 40);
    assert_eq!(linear_map(5, 10, 0, 20, 40), 30);
}

#[test]
fn test_linear_map_rounds_to_nearest() {
    // 1/3 of the way across a 0..100 output range rounds to 33.
    assert_eq!(linear_map(1, 0, 3, 0, 100), 33);
    // Halves round away from zero.
    assert_eq!(linear_map(1, 0, 2, 0, 3), 2);
    assert_eq!(linear_map(1, 0, 2, 0, -3), -2);
}
