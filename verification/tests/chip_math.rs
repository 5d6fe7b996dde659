//! Tests of the chip's register map, prescale and duty-cycle arithmetic.

use servo_arm::math::{
    compute_on_off_time, compute_on_off_time_strict, compute_prescale, Error, DUTY_SCALE,
};
use servo_arm::registers::{
    clear_bits, led_base_addr, led_off_l_addr, led_on_l_addr, set_bits, MODE1_ALLCALL_BIT,
    MODE1_SLEEP_BIT,
};

#[test]
fn test_compute_prescale_example() {
    assert_eq!(compute_prescale(25_000_000, 50).unwrap(), 121);
}

#[test]
fn test_compute_prescale_zero_rate() {
    assert!(matches!(compute_prescale(25_000_000, 0), Err(Error::PrescaleOutOfBounds)));
}

#[test]
fn test_compute_prescale_too_small() {
    // round(1000 / 204800) == 0, so the prescale would be -1.
    assert!(matches!(compute_prescale(1_000, 50), Err(Error::PrescaleOutOfBounds)));
}

#[test]
fn test_compute_prescale_too_large() {
    assert!(matches!(compute_prescale(u32::MAX, 1), Err(Error::PrescaleOutOfBounds)));
}

#[test]
fn test_compute_prescale_upper_boundary() {
    // 256 * 4096 * 50 rounds to exactly 256, giving the largest prescale.
    assert_eq!(compute_prescale(256 * 204_800, 50).unwrap(), 255);
    assert!(matches!(compute_prescale(257 * 204_800, 50), Err(Error::PrescaleOutOfBounds)));
}

#[test]
fn test_compute_on_off_time_half() {
    assert_eq!(compute_on_off_time(DUTY_SCALE / 2), (0, 2048));
}

#[test]
fn test_compute_on_off_time_clamps_low() {
    // A negative duty cycle converts like the clamped value 0.
    assert_eq!(compute_on_off_time(-250_000), compute_on_off_time(0));
    assert_eq!(compute_on_off_time(-250_000), (0, 0));
}

#[test]
fn test_compute_on_off_time_clamps_high() {
    // An over-full duty cycle converts like the clamped value 1.
    assert_eq!(compute_on_off_time(DUTY_SCALE + 500_000), compute_on_off_time(DUTY_SCALE));
    assert_eq!(compute_on_off_time(DUTY_SCALE + 500_000), (0, 4095));
}

#[test]
fn test_compute_on_off_time_strict_accepts_in_range() {
    assert_eq!(compute_on_off_time_strict(DUTY_SCALE / 2).unwrap(), (0, 2048));
}

#[test]
fn test_compute_on_off_time_strict_rejects_out_of_range() {
    assert!(matches!(compute_on_off_time_strict(-1), Err(Error::DutyCycleOutOfBounds)));
    assert!(matches!(
        compute_on_off_time_strict(DUTY_SCALE + 1),
        Err(Error::DutyCycleOutOfBounds)
    ));
}

#[test]
fn test_led_register_addresses() {
    assert_eq!(led_base_addr(0), 0x06);
    assert_eq!(led_on_l_addr(0), 0x06);
    assert_eq!(led_off_l_addr(0), 0x08);
    assert_eq!(led_base_addr(1), 0x0A);
    assert_eq!(led_on_l_addr(15), 0x06 + 60);
    assert_eq!(led_off_l_addr(15), 0x06 + 62);
}

#[test]
fn test_bit_masks() {
    assert_eq!(set_bits(0x01, MODE1_SLEEP_BIT), 0x11);
    assert_eq!(clear_bits(0x11, MODE1_SLEEP_BIT), 0x01);
    assert_eq!(clear_bits(0x11, MODE1_ALLCALL_BIT), 0x10);
    assert_eq!(set_bits(0x10, MODE1_ALLCALL_BIT), 0x11);
}
