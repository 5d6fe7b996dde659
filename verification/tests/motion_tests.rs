//! Tests of motion planning: step sizes, step counts, intervals and the
//! duration-derived speed.

use servo_arm::motion::{plan_with_duration, plan_with_speed, step_size, Error};
use servo_arm::profiles::ServoSettingsProfiles;
use servo_arm::settings::ServoSettings;

#[test]
fn test_step_size_default_settings() {
    // 180 degrees over 10% of 4095 slots: about 0.44 degrees per slot.
    assert_eq!(step_size(&ServoSettings::new()), 440);
}

#[test]
fn test_step_size_profiles() {
    assert_eq!(step_size(&ServoSettingsProfiles::s06nf_01()), 468);
    assert_eq!(step_size(&ServoSettingsProfiles::s06nf_02()), 415);
}

#[test]
fn test_plan_with_speed_step_count() {
    // 90 degrees at step size 440: round(90000 / 440) == 205 writes.
    let plan = plan_with_speed(&ServoSettings::new(), 0, 90_000, 10_000);
    assert_eq!(plan.steps.len(), 205);
    assert_eq!(plan.steps[0], 440);
    assert_eq!(plan.steps[204], 205 * 440);
    // The last written angle lies within one step size of the target.
    assert!((plan.steps[204] - 90_000).abs() < 440);
}

#[test]
fn test_plan_with_speed_interval() {
    let plan = plan_with_speed(&ServoSettings::new(), 0, 90_000, 10_000);
    // One 440-millidegree step at 10 degrees per second takes 44 ms.
    assert_eq!(plan.interval_micros, 44_000);
}

#[test]
fn test_plan_with_speed_descending() {
    let plan = plan_with_speed(&ServoSettings::new(), 0, -90_000, 10_000);
    assert_eq!(plan.steps.len(), 205);
    assert_eq!(plan.steps[0], -440);
    assert!(plan.steps.windows(2).all(|w| w[1] < w[0]));
}

#[test]
fn test_plan_zero_distance() {
    // A motion to the current angle performs zero writes.
    let plan = plan_with_speed(&ServoSettings::new(), 12_345, 12_345, 10_000);
    assert_eq!(plan.steps.len(), 0);
}

#[test]
fn test_plan_with_duration_derives_speed() {
    // 90 degrees in 2 seconds: 45 degrees per second, so one step takes
    // round(440_000_000 / 45_000) microseconds.
    let plan = plan_with_duration(&ServoSettings::new(), 0, 90_000, 2_000_000).unwrap();
    assert_eq!(plan.steps.len(), 205);
    assert_eq!(plan.interval_micros, 9_778);
}

#[test]
fn test_plan_with_duration_rejects_zero() {
    assert!(matches!(
        plan_with_duration(&ServoSettings::new(), 0, 90_000, 0),
        Err(Error::InvalidDuration)
    ));
}

#[test]
fn test_plan_with_duration_zero_distance() {
    let plan = plan_with_duration(&ServoSettings::new(), -5_000, -5_000, 1_000_000).unwrap();
    assert_eq!(plan.steps.len(), 0);
}

#[test]
fn test_plan_with_duration_very_long() {
    // A duration far beyond the distance still plans a positive, slowest
    // speed instead of stalling.
    let plan = plan_with_duration(&ServoSettings::new(), 0, 440, 5_000_000_000_000).unwrap();
    assert_eq!(plan.steps.len(), 1);
    assert_eq!(plan.interval_micros, 440_000_000);
}
