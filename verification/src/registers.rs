//! Register map of the PWM controller chip and the bit-level helpers used by
//! the driver's read-modify-write sequences.
//!
//! The chip exposes a MODE1 control register, a prescale register and one
//! 4-byte block per channel (ON low/high, OFF low/high) starting at
//! `LED_BASE_ADDR`, each block `LED_BASE_OFFSET_MULTIPLIER` bytes apart.

use vstd::prelude::*;

verus! {

/// Address of the MODE1 control register.
pub const MODE1_ADDR: u8 = 0x00;

/// Base address of the first channel's register block.
pub const LED_BASE_ADDR: u8 = 0x06;

/// Size in bytes of one channel's register block.
pub const LED_BASE_OFFSET_MULTIPLIER: u8 = 0x04;

/// Offset of the ON-low register within a channel's block.
pub const LED_ON_L_BASE_OFFSET: u8 = 0x00;

/// Offset of the ON-high register within a channel's block.
pub const LED_ON_H_BASE_OFFSET: u8 = 0x01;

/// Offset of the OFF-low register within a channel's block.
pub const LED_OFF_L_BASE_OFFSET: u8 = 0x02;

/// Offset of the OFF-high register within a channel's block.
pub const LED_OFF_H_BASE_OFFSET: u8 = 0x03;

/// Address of the prescale register; writable only while the chip sleeps.
pub const PRE_SCALE_ADDR: u8 = 0xFE;

/// MODE1 flag: the chip signals restart readiness through this bit.
pub const MODE1_RESTART_BIT: u8 = 0x80;

/// MODE1 flag: set puts the chip to sleep, cleared wakes it.
pub const MODE1_SLEEP_BIT: u8 = 0x10;

/// MODE1 flag: while set the chip also answers the all-call bus address.
pub const MODE1_ALLCALL_BIT: u8 = 0x01;

/// Number of channels the chip drives.
pub const CHANNEL_COUNT: u8 = 16;

/// Base address of the register block of `channel`.
pub fn led_base_addr(channel: u8) -> (r: u8)
    requires
        channel < CHANNEL_COUNT,
    ensures
        r == LED_BASE_ADDR + channel * LED_BASE_OFFSET_MULTIPLIER,
{
    LED_BASE_ADDR + channel * LED_BASE_OFFSET_MULTIPLIER
}

/// Address of the ON-low register of `channel`; the three remaining registers
/// of the block follow at the next three addresses.
pub fn led_on_l_addr(channel: u8) -> (r: u8)
    requires
        channel < CHANNEL_COUNT,
    ensures
        r == LED_BASE_ADDR + channel * LED_BASE_OFFSET_MULTIPLIER + LED_ON_L_BASE_OFFSET,
{
    led_base_addr(channel) + LED_ON_L_BASE_OFFSET
}

/// Address of the OFF-low register of `channel`.
pub fn led_off_l_addr(channel: u8) -> (r: u8)
    requires
        channel < CHANNEL_COUNT,
    ensures
        r == LED_BASE_ADDR + channel * LED_BASE_OFFSET_MULTIPLIER + LED_OFF_L_BASE_OFFSET,
{
    led_base_addr(channel) + LED_OFF_L_BASE_OFFSET
}

/// Register value with every bit of `mask` set: the compute half of a
/// set-bits read-modify-write.
pub fn set_bits(value: u8, mask: u8) -> (r: u8)
    ensures
        r == (value | mask),
{
    value | mask
}

/// Register value with every bit of `mask` cleared: the compute half of a
/// clear-bits read-modify-write.
pub fn clear_bits(value: u8, mask: u8) -> (r: u8)
    ensures
        r == (value & !mask),
{
    value & !mask
}

} // verus!
