//! Tests of the driver's bus frames, bring-up and restart protocol.

use servo_arm::driver::{
    channel_duty_cycle_frame, channel_write_frame, restart_check, restart_mode1, sleep_mode1,
    software_reset_plan, wake_mode1, write_byte_frame, write_bytes_frame, BusOp, DriverBuilder,
    Error, RestartCheck, GENERAL_CALL_ADDRESS, RESET_SETTLE_MICROS, SOFTWARE_RESET_BYTE,
};
use servo_arm::math::Error as MathError;

#[test]
fn test_software_reset_plan() {
    let ops = software_reset_plan(0x40);
    assert_eq!(ops.len(), 4);
    assert!(matches!(ops[0], BusOp::SetAddress(a) if a == GENERAL_CALL_ADDRESS));
    assert!(matches!(&ops[1], BusOp::WriteBytes(b) if b == &vec![SOFTWARE_RESET_BYTE]));
    assert!(matches!(ops[2], BusOp::SetAddress(0x40)));
    assert!(matches!(ops[3], BusOp::SleepMicros(m) if m == RESET_SETTLE_MICROS));
}

#[test]
fn test_write_byte_frame() {
    assert_eq!(write_byte_frame(0xFE, 121), vec![0xFE, 121]);
}

#[test]
fn test_write_bytes_frame() {
    let data = vec![1, 2, 3];
    assert_eq!(write_bytes_frame(0x06, &data), vec![0x06, 1, 2, 3]);
}

#[test]
fn test_channel_write_frame() {
    // Channel 0 starts at register 0x06; each value is split low byte first.
    assert_eq!(channel_write_frame(0, 0x0123, 0x0ABC), vec![0x06, 0x23, 0x01, 0xBC, 0x0A]);
}

#[test]
fn test_channel_duty_cycle_frame() {
    // Half duty converts to off-slot 2048 = 0x0800; channel 3 starts at 0x12.
    assert_eq!(channel_duty_cycle_frame(3, 500_000), vec![0x12, 0x00, 0x00, 0x00, 0x08]);
}

#[test]
fn test_sleep_wake_restart_values() {
    assert_eq!(sleep_mode1(0x01), 0x11);
    assert_eq!(wake_mode1(0x31), 0x21);
    assert_eq!(restart_mode1(0x00), 0x80);
}

#[test]
fn test_restart_check_sequence() {
    assert!(matches!(restart_check(0x80, false), RestartCheck::Proceed));
    assert!(matches!(restart_check(0x80, true), RestartCheck::Proceed));
    assert!(matches!(restart_check(0x00, false), RestartCheck::WaitAndRecheck));
    assert!(matches!(restart_check(0x00, true), RestartCheck::Fail));
}

#[test]
fn test_driver_builder_defaults() {
    let builder = DriverBuilder::new();
    assert_eq!(builder.osc_clock, 50_000_000);
    assert_eq!(builder.update_rate, 50);
}

#[test]
fn test_driver_builder_build() {
    let prescale = DriverBuilder::new()
        .with_osc_clock(26_600_000)
        .with_update_rate(50)
        .build()
        .unwrap();
    assert_eq!(prescale, 129);
}

#[test]
fn test_driver_builder_build_rejects_bad_rate() {
    let result = DriverBuilder::new().with_osc_clock(26_600_000).with_update_rate(0).build();
    assert!(matches!(result, Err(Error::MathError(MathError::PrescaleOutOfBounds))));
}
