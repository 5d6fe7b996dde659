//! The register-level driver protocol of the PWM controller chip.
//!
//! Every bus transaction the driver performs is computed here as plain data:
//! the exact byte frames written to the chip, the values of read-modify-write
//! sequences on MODE1, the bring-up prescale byte, and the decisions of the
//! three-step restart sequence. An unverified shell owns the bus and executes
//! these frames and decisions, sleeping where a plan says to.

use crate::math::{compute_on_off_time, compute_prescale, off_value_spec, prescale_spec};
use crate::registers::{
    clear_bits, led_on_l_addr, set_bits, CHANNEL_COUNT, LED_BASE_ADDR,
    LED_BASE_OFFSET_MULTIPLIER, MODE1_RESTART_BIT, MODE1_SLEEP_BIT,
};
use vstd::prelude::*;

verus! {

/// Errors of the driver layer.
#[derive(Debug, Clone, Copy)]
pub enum Error {
    /// A bus transaction failed; the shell reports the transport's own error
    /// beside it.
    DeviceError,
    /// A domain error in the chip arithmetic.
    MathError(crate::math::Error),
    /// The chip failed to signal restart readiness.
    RestartError,
}

/// One step of a bus sequence executed by the unverified shell.
#[derive(Debug, Clone)]
pub enum BusOp {
    /// Retarget the bus at the given device address.
    SetAddress(u16),
    /// Write one transaction of raw bytes.
    WriteBytes(Vec<u8>),
    /// Pause for the given number of microseconds.
    SleepMicros(u64),
}

/// The broadcast address every chip on the bus answers.
pub const GENERAL_CALL_ADDRESS: u16 = 0x00;

/// The data byte of the software-reset broadcast.
pub const SOFTWARE_RESET_BYTE: u8 = 0x06;

/// Settle time after a software reset, in microseconds.
pub const RESET_SETTLE_MICROS: u64 = 1_000;

/// Settle time for the oscillator after waking the chip, in microseconds.
pub const OSC_SETTLE_MICROS: u64 = 500;

/// Default oscillator clock of the builder, in Hz.
pub const DEFAULT_OSC_CLOCK: u32 = 50_000_000;

/// Default PWM update rate of the builder, in Hz.
pub const DEFAULT_UPDATE_RATE: u16 = 50;

/// The bus sequence of a software reset: broadcast the reset byte on the
/// general-call address, restore the device's own address, then let the chip
/// settle.
pub fn software_reset_plan(device_address: u16) -> (r: Vec<BusOp>)
    ensures
        r@.len() == 4,
        r@[0] matches BusOp::SetAddress(a) && a == GENERAL_CALL_ADDRESS,
        r@[1] matches BusOp::WriteBytes(b) && b@ =~= seq![SOFTWARE_RESET_BYTE],
        r@[2] matches BusOp::SetAddress(a) && a == device_address,
        r@[3] matches BusOp::SleepMicros(m) && m == RESET_SETTLE_MICROS,
{
    let mut reset_bytes: Vec<u8> = Vec::new();
    reset_bytes.push(SOFTWARE_RESET_BYTE);
    let mut ops: Vec<BusOp> = Vec::new();
    ops.push(BusOp::SetAddress(GENERAL_CALL_ADDRESS));
    ops.push(BusOp::WriteBytes(reset_bytes));
    ops.push(BusOp::SetAddress(device_address));
    ops.push(BusOp::SleepMicros(RESET_SETTLE_MICROS));
    ops
}

/// The bus frame of a single-register write: the register address followed by
/// the value.
pub fn write_byte_frame(address: u8, value: u8) -> (r: Vec<u8>)
    ensures
        r@ =~= seq![address, value],
{
    let mut frame: Vec<u8> = Vec::new();
    frame.push(address);
    frame.push(value);
    frame
}

/// The bus frame of a multi-register write: the starting register address
/// followed by the data bytes.
pub fn write_bytes_frame(address: u8, data: &Vec<u8>) -> (r: Vec<u8>)
    ensures
        r@ =~= seq![address] + data@,
{
    let mut frame: Vec<u8> = Vec::new();
    frame.push(address);
    let mut i: usize = 0;
    while i < data.len()
        invariant
            i <= data@.len(),
            frame@ =~= seq![address] + data@.subrange(0, i as int),
        decreases data@.len() - i,
    {
        frame.push(data[i]);
        i = i + 1;
    }
    proof {
        assert(data@.subrange(0, data@.len() as int) =~= data@);
    }
    frame
}

/// The full bus frame of one channel write: the channel's ON-low register
/// address, then ON and OFF, each split low byte first.
pub open spec fn channel_frame_spec(channel: u8, on: u16, off: u16) -> Seq<u8>
    recommends
        channel < CHANNEL_COUNT,
{
    seq![
        (LED_BASE_ADDR + channel * LED_BASE_OFFSET_MULTIPLIER) as u8,
        (on % 256) as u8,
        (on / 256) as u8,
        (off % 256) as u8,
        (off / 256) as u8,
    ]
}

/// Computes the frame that writes the 12-bit `on` and `off` slot values to
/// `channel`, all four data bytes in one transaction.
pub fn channel_write_frame(channel: u8, on: u16, off: u16) -> (r: Vec<u8>)
    requires
        channel < CHANNEL_COUNT,
        on <= 4095,
        off <= 4095,
    ensures
        r@ =~= channel_frame_spec(channel, on, off),
{
    let address: u8 = led_on_l_addr(channel);
    let on_l: u8 = (on & 0x00ff) as u8;
    let on_h: u8 = ((on & 0xff00) >> 8u16) as u8;
    let off_l: u8 = (off & 0x00ff) as u8;
    let off_h: u8 = ((off & 0xff00) >> 8u16) as u8;
    proof {
        assert(on & 0x00ff == on % 256) by (bit_vector);
        assert((on & 0xff00) >> 8u16 == on / 256) by (bit_vector);
        assert(off & 0x00ff == off % 256) by (bit_vector);
        assert((off & 0xff00) >> 8u16 == off / 256) by (bit_vector);
    }
    let mut data: Vec<u8> = Vec::new();
    data.push(on_l);
    data.push(on_h);
    data.push(off_l);
    data.push(off_h);
    write_bytes_frame(address, &data)
}

/// Computes the frame that writes `duty_cycle` to `channel`: the signal
/// switches on at slot 0 and off after the clamped fraction of the frame.
pub fn channel_duty_cycle_frame(channel: u8, duty_cycle: i64) -> (r: Vec<u8>)
    requires
        channel < CHANNEL_COUNT,
    ensures
        r@ =~= channel_frame_spec(channel, 0, off_value_spec(duty_cycle as int) as u16),
{
    let (on, off) = compute_on_off_time(duty_cycle);
    channel_write_frame(channel, on, off)
}

/// MODE1 value that puts the chip to sleep.
pub fn sleep_mode1(mode1: u8) -> (r: u8)
    ensures
        r == (mode1 | MODE1_SLEEP_BIT),
{
    set_bits(mode1, MODE1_SLEEP_BIT)
}

/// MODE1 value that wakes the chip; after writing it the shell waits
/// [`OSC_SETTLE_MICROS`] for the oscillator to stabilize.
pub fn wake_mode1(mode1: u8) -> (r: u8)
    ensures
        r == (mode1 & !MODE1_SLEEP_BIT),
{
    clear_bits(mode1, MODE1_SLEEP_BIT)
}

/// MODE1 value that resumes all channels: the final step of the restart
/// sequence writes a one to the restart bit.
pub fn restart_mode1(mode1: u8) -> (r: u8)
    ensures
        r == (mode1 | MODE1_RESTART_BIT),
{
    set_bits(mode1, MODE1_RESTART_BIT)
}

/// The next step of the three-step restart sequence.
#[derive(Debug, Clone, Copy)]
pub enum RestartCheck {
    /// The restart bit is set: clear the sleep bit, wait
    /// [`OSC_SETTLE_MICROS`], then write [`restart_mode1`].
    Proceed,
    /// The restart bit is unset on the first read: wait
    /// [`OSC_SETTLE_MICROS`] and read MODE1 once more.
    WaitAndRecheck,
    /// The restart bit stayed unset: no channel can be safely restarted.
    Fail,
}

/// Decides the restart sequence's next step from a MODE1 read; `rechecked`
/// says whether this is already the second read.
pub fn restart_check(mode1: u8, rechecked: bool) -> (r: RestartCheck)
    ensures
        mode1 & MODE1_RESTART_BIT != 0 ==> r is Proceed,
        mode1 & MODE1_RESTART_BIT == 0 && !rechecked ==> r is WaitAndRecheck,
        mode1 & MODE1_RESTART_BIT == 0 && rechecked ==> r is Fail,
{
    if mode1 & MODE1_RESTART_BIT != 0 {
        RestartCheck::Proceed
    } else if !rechecked {
        RestartCheck::WaitAndRecheck
    } else {
        RestartCheck::Fail
    }
}

/// Bring-up configuration of the driver: oscillator clock and PWM update
/// rate, from which the prescale byte is computed.
#[derive(Debug, Clone, Copy)]
pub struct DriverBuilder {
    /// The chip's oscillator clock, in Hz.
    pub osc_clock: u32,
    /// The desired PWM update rate, in Hz.
    pub update_rate: u16,
}

impl DriverBuilder {
    /// Creates a builder with the default oscillator clock and update rate.
    pub fn new() -> (r: Self)
        ensures
            r.osc_clock == DEFAULT_OSC_CLOCK,
            r.update_rate == DEFAULT_UPDATE_RATE,
    {
        DriverBuilder { osc_clock: DEFAULT_OSC_CLOCK, update_rate: DEFAULT_UPDATE_RATE }
    }

    /// Replaces the oscillator clock.
    pub fn with_osc_clock(self, osc_clock: u32) -> (r: Self)
        ensures
            r.osc_clock == osc_clock,
            r.update_rate == self.update_rate,
    {
        DriverBuilder { osc_clock, ..self }
    }

    /// Replaces the update rate.
    pub fn with_update_rate(self, update_rate: u16) -> (r: Self)
        ensures
            r.osc_clock == self.osc_clock,
            r.update_rate == update_rate,
    {
        DriverBuilder { update_rate, ..self }
    }

    /// Computes the prescale byte that bring-up writes. The full sequence the
    /// shell executes, while the chip sleeps: clear `MODE1_ALLCALL_BIT` in
    /// MODE1, then write this byte to `PRE_SCALE_ADDR`. Fails exactly when
    /// the prescale value does not fit the chip's register.
    pub fn build(&self) -> (r: Result<u8, Error>)
        ensures
            r is Ok <==> self.update_rate > 0 && 0 <= prescale_spec(self.osc_clock, self.update_rate) <= 255,
            r is Ok ==> r->Ok_0 == prescale_spec(self.osc_clock, self.update_rate),
            r is Err ==> (r->Err_0 matches Error::MathError(e) && e is PrescaleOutOfBounds),
    {
        match compute_prescale(self.osc_clock, self.update_rate) {
            Ok(prescale) => Ok(prescale),
            Err(e) => Err(Error::MathError(e)),
        }
    }
}

} // verus!
