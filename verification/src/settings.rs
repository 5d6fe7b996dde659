//! Per-servo calibration: a linear mapping from an angle range onto a
//! duty-cycle range, supplied as configuration when a servo is constructed
//! and immutable afterwards.
//!
//! Angles are millidegrees, duty cycles parts per million.

use crate::math::{DUTY_SCALE, PWM_SLOTS};
use crate::rounding::{lemma_round_div_exact, lemma_round_div_mono, round_div};
use vstd::prelude::*;

verus! {

/// Largest servo angle magnitude the library accepts, in millidegrees.
pub const ANGLE_LIMIT: i64 = 1_000_000;

/// Default calibration: -90 to 90 degrees over 2.5% to 12.5% duty cycle.
pub const DEFAULT_START_ANGLE: i64 = -90_000;

/// Default end of the angle range, in millidegrees.
pub const DEFAULT_END_ANGLE: i64 = 90_000;

/// Default duty cycle at the start angle, in parts per million.
pub const DEFAULT_START_DUTY_CYCLE: i64 = 25_000;

/// Default duty cycle at the end angle, in parts per million.
pub const DEFAULT_END_DUTY_CYCLE: i64 = 125_000;

/// The settings of one servo: the calibrated angle range and the duty-cycle
/// range it maps onto.
#[derive(Clone, Copy, Debug, PartialEq, Eq, Structural)]
pub struct ServoSettings {
    /// The starting angle of the servo, in millidegrees.
    pub start_angle: i64,
    /// The ending angle of the servo, in millidegrees.
    pub end_angle: i64,
    /// The duty cycle at the starting angle, in parts per million.
    pub start_duty_cycle: i64,
    /// The duty cycle at the ending angle, in parts per million.
    pub end_duty_cycle: i64,
}

/// The angular change, in millidegrees, that one duty-cycle quantization step
/// of the chip produces under this calibration.
pub open spec fn step_size_spec(s: ServoSettings) -> int {
    round_div(
        (s.end_angle - s.start_angle) * DUTY_SCALE,
        (s.end_duty_cycle - s.start_duty_cycle) * (PWM_SLOTS - 1),
    )
}

impl ServoSettings {
    /// A calibration the motion controller can drive: ascending, in-range,
    /// and coarse enough that one quantization step moves the servo by at
    /// least one millidegree.
    pub open spec fn wf(self) -> bool {
        &&& -ANGLE_LIMIT <= self.start_angle < self.end_angle <= ANGLE_LIMIT
        &&& 0 <= self.start_duty_cycle < self.end_duty_cycle <= DUTY_SCALE
        &&& step_size_spec(self) >= 1
    }

    /// Creates settings with the default calibration.
    pub fn new() -> (r: Self)
        ensures
            r.start_angle == DEFAULT_START_ANGLE,
            r.end_angle == DEFAULT_END_ANGLE,
            r.start_duty_cycle == DEFAULT_START_DUTY_CYCLE,
            r.end_duty_cycle == DEFAULT_END_DUTY_CYCLE,
            r.wf(),
    {
        let r = ServoSettings {
            start_angle: DEFAULT_START_ANGLE,
            end_angle: DEFAULT_END_ANGLE,
            start_duty_cycle: DEFAULT_START_DUTY_CYCLE,
            end_duty_cycle: DEFAULT_END_DUTY_CYCLE,
        };
        proof {
            lemma_step_size_at_least_one(r);
        }
        r
    }

    /// Replaces the starting angle.
    pub fn with_start_angle(self, start_angle: i64) -> (r: Self)
        ensures
            r == (ServoSettings { start_angle, ..self }),
    {
        ServoSettings { start_angle, ..self }
    }

    /// Replaces the ending angle.
    pub fn with_end_angle(self, end_angle: i64) -> (r: Self)
        ensures
            r == (ServoSettings { end_angle, ..self }),
    {
        ServoSettings { end_angle, ..self }
    }

    /// Replaces the duty cycle at the starting angle.
    pub fn with_start_duty_cycle(self, start_duty_cycle: i64) -> (r: Self)
        ensures
            r == (ServoSettings { start_duty_cycle, ..self }),
    {
        ServoSettings { start_duty_cycle, ..self }
    }

    /// Replaces the duty cycle at the ending angle.
    pub fn with_end_duty_cycle(self, end_duty_cycle: i64) -> (r: Self)
        ensures
            r == (ServoSettings { end_duty_cycle, ..self }),
    {
        ServoSettings { end_duty_cycle, ..self }
    }
}

/// A calibration whose angle span, scaled to parts per million, is at least
/// its duty-cycle span in chip slots has a step size of at least one
/// millidegree.
pub proof fn lemma_step_size_at_least_one(s: ServoSettings)
    requires
        s.start_angle < s.end_angle,
        s.start_duty_cycle < s.end_duty_cycle,
        (s.end_angle - s.start_angle) * DUTY_SCALE
            >= (s.end_duty_cycle - s.start_duty_cycle) * (PWM_SLOTS - 1),
    ensures
        step_size_spec(s) >= 1,
{
    let den = (s.end_duty_cycle - s.start_duty_cycle) * (PWM_SLOTS - 1);
    assert((s.end_duty_cycle - s.start_duty_cycle) * (PWM_SLOTS - 1) >= 1 * (PWM_SLOTS - 1))
        by (nonlinear_arith)
        requires s.start_duty_cycle < s.end_duty_cycle && PWM_SLOTS == 4096;
    assert(1 * den == den) by (nonlinear_arith);
    lemma_round_div_exact(1, den);
    lemma_round_div_mono(den, (s.end_angle - s.start_angle) * DUTY_SCALE, den);
}

} // verus!
