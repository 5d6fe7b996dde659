//! Frequency and duty-cycle arithmetic of the PWM controller chip.
//!
//! The chip divides its oscillator clock into 4096-slot PWM frames; the
//! prescale register holds `round(osc_clock / (4096 * update_rate)) - 1`.
//! A duty cycle is a fraction of one frame, held here in parts per million
//! (`0 ..= DUTY_SCALE`); the chip itself takes a 12-bit off-slot in
//! `0 ..= 4095`.

use crate::rounding::{
    lemma_round_div_exact, lemma_round_div_mono, lemma_round_div_zero, round_div, round_div_i64,
    round_div_u64,
};
use vstd::math::abs;
use vstd::prelude::*;

verus! {

/// One full duty cycle in parts per million.
pub const DUTY_SCALE: i64 = 1_000_000;

/// Number of time slots in one PWM frame; off-values live in `0 ..= 4095`.
pub const PWM_SLOTS: i64 = 4096;

/// Domain errors of the chip arithmetic.
#[derive(Debug, Clone, Copy)]
pub enum Error {
    /// The computed prescale value does not fit the chip's one-byte register.
    PrescaleOutOfBounds,
    /// A duty cycle lies outside `0 ..= DUTY_SCALE`.
    DutyCycleOutOfBounds,
}

/// The prescale value the chip needs for `update_rate` PWM frames per second:
/// `round(osc_clock / (4096 * update_rate)) - 1`.
pub open spec fn prescale_spec(osc_clock: u32, update_rate: u16) -> int
    recommends
        update_rate > 0,
{
    round_div(osc_clock as int, 4096 * update_rate) - 1
}

/// Computes the prescale byte for the given oscillator clock (Hz) and PWM
/// update rate (Hz). Fails exactly when the mathematical result has no value
/// (a zero update rate) or does not fit in a byte.
pub fn compute_prescale(osc_clock: u32, update_rate: u16) -> (r: Result<u8, Error>)
    ensures
        r is Ok <==> update_rate > 0 && 0 <= prescale_spec(osc_clock, update_rate) <= 255,
        r is Ok ==> r->Ok_0 == prescale_spec(osc_clock, update_rate),
        r is Err ==> r->Err_0 is PrescaleOutOfBounds,
{
    if update_rate == 0 {
        return Err(Error::PrescaleOutOfBounds);
    }
    let denom: u64 = 4096u64 * update_rate as u64;
    let rounded: u64 = round_div_u64(osc_clock as u64, denom);
    if rounded < 1 || rounded > 256 {
        Err(Error::PrescaleOutOfBounds)
    } else {
        Ok((rounded - 1) as u8)
    }
}

/// A duty cycle forced into `0 ..= DUTY_SCALE`.
pub open spec fn clamp_duty(duty_cycle: int) -> int {
    if duty_cycle < 0 {
        0
    } else if duty_cycle > DUTY_SCALE {
        DUTY_SCALE as int
    } else {
        duty_cycle
    }
}

/// The 12-bit off-slot a duty cycle converts to: `round(duty * 4095 / scale)`
/// after clamping.
pub open spec fn off_value_spec(duty_cycle: int) -> int {
    round_div(clamp_duty(duty_cycle) * (PWM_SLOTS - 1), DUTY_SCALE as int)
}

/// Out-of-range duty cycles convert exactly like their clamped value: a
/// negative duty cycle like zero, an over-full one like one whole cycle.
pub proof fn lemma_off_value_clamps(duty_cycle: int)
    ensures
        duty_cycle < 0 ==> off_value_spec(duty_cycle) == off_value_spec(0),
        duty_cycle > DUTY_SCALE ==> off_value_spec(duty_cycle) == off_value_spec(DUTY_SCALE as int),
{
}

/// The off-slot of every duty cycle is a valid 12-bit value.
pub proof fn lemma_off_value_in_range(duty_cycle: int)
    ensures
        0 <= off_value_spec(duty_cycle) <= PWM_SLOTS - 1,
{
    let d = clamp_duty(duty_cycle);
    lemma_round_div_zero(DUTY_SCALE as int);
    lemma_round_div_mono(0, d * (PWM_SLOTS - 1), DUTY_SCALE as int);
    lemma_round_div_mono(d * (PWM_SLOTS - 1), (PWM_SLOTS - 1) * DUTY_SCALE, DUTY_SCALE as int);
    lemma_round_div_exact(PWM_SLOTS - 1, DUTY_SCALE as int);
    assert(0 <= d * (PWM_SLOTS - 1) <= (PWM_SLOTS - 1) * DUTY_SCALE) by (nonlinear_arith)
        requires 0 <= d <= DUTY_SCALE;
}

/// Converts a duty cycle into the `(on, off)` slot pair written to a channel:
/// the signal always switches on at slot 0 and off after the clamped fraction
/// of the 4095 usable slots. Out-of-range inputs are clamped, not rejected,
/// so that actuation never halts on a transient out-of-range value.
pub fn compute_on_off_time(duty_cycle: i64) -> (r: (u16, u16))
    ensures
        r.0 == 0,
        r.1 == off_value_spec(duty_cycle as int),
        r.1 <= PWM_SLOTS - 1,
{
    let clamped: i64 = if duty_cycle < 0 {
        0
    } else if duty_cycle > DUTY_SCALE {
        DUTY_SCALE
    } else {
        duty_cycle
    };
    proof {
        lemma_off_value_in_range(duty_cycle as int);
        assert(clamped * (PWM_SLOTS - 1) <= DUTY_SCALE * (PWM_SLOTS - 1)) by (nonlinear_arith)
            requires 0 <= clamped <= DUTY_SCALE;
        assert(clamped * (PWM_SLOTS - 1) >= 0) by (nonlinear_arith)
            requires clamped >= 0;
    }
    let off: i64 = round_div_i64(clamped * (PWM_SLOTS - 1), DUTY_SCALE);
    (0u16, off as u16)
}

/// The strict variant of [`compute_on_off_time`]: rejects out-of-range duty
/// cycles instead of clamping them, for callers that need validation.
pub fn compute_on_off_time_strict(duty_cycle: i64) -> (r: Result<(u16, u16), Error>)
    ensures
        r is Ok <==> 0 <= duty_cycle <= DUTY_SCALE,
        r is Ok ==> r->Ok_0.0 == 0 && r->Ok_0.1 == off_value_spec(duty_cycle as int),
        r is Err ==> r->Err_0 is DutyCycleOutOfBounds,
{
    if duty_cycle < 0 || duty_cycle > DUTY_SCALE {
        Err(Error::DutyCycleOutOfBounds)
    } else {
        Ok(compute_on_off_time(duty_cycle))
    }
}

} // verus!
