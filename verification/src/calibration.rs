//! The angle-to-duty-cycle calibration: a general linear remap of one
//! fixed-point range onto another, rounded to the nearest output unit.
//!
//! Angles are millidegrees, duty cycles parts per million; the remap is not
//! limited to inputs inside the calibrated range.

use crate::rounding::{
    lemma_round_div_bound, lemma_round_div_exact, lemma_round_div_mono, lemma_round_div_zero,
    round_div, round_div_i64,
};
use vstd::math::abs;
use vstd::prelude::*;

verus! {

/// Largest magnitude accepted for any input of the linear remap.
pub const MAP_LIMIT: i64 = 2_000_000;

/// `x` mapped linearly from `[in_min, in_max]` onto `[out_min, out_max]`,
/// rounded to the nearest integer. The two range bounds may lie in either
/// order, but must differ.
pub open spec fn linear_map_spec(x: int, in_min: int, in_max: int, out_min: int, out_max: int) -> int
    recommends
        in_min != in_max,
{
    if in_max > in_min {
        out_min + round_div((out_max - out_min) * (x - in_min), in_max - in_min)
    } else {
        out_min + round_div((out_max - out_min) * (in_min - x), in_min - in_max)
    }
}

/// The duty cycle a servo calibration assigns to `angle`.
pub open spec fn duty_cycle_spec(
    start_duty_cycle: int,
    end_duty_cycle: int,
    start_angle: int,
    end_angle: int,
    angle: int,
) -> int
    recommends
        start_angle != end_angle,
{
    linear_map_spec(angle, start_angle, end_angle, start_duty_cycle, end_duty_cycle)
}

/// Maps `x` linearly from `[in_min, in_max]` onto `[out_min, out_max]`.
pub fn linear_map(x: i64, in_min: i64, in_max: i64, out_min: i64, out_max: i64) -> (r: i64)
    requires
        in_min != in_max,
        abs(x as int) <= MAP_LIMIT,
        abs(in_min as int) <= MAP_LIMIT,
        abs(in_max as int) <= MAP_LIMIT,
        abs(out_min as int) <= MAP_LIMIT,
        abs(out_max as int) <= MAP_LIMIT,
    ensures
        r == linear_map_spec(x as int, in_min as int, in_max as int, out_min as int, out_max as int),
{
    let span: i64 = out_max - out_min;
    let (num, den): (i64, i64) = if in_max > in_min {
        (x - in_min, in_max - in_min)
    } else {
        (in_min - x, in_min - in_max)
    };
    proof {
        assert(abs((span * num) as int) <= 16_000_000_000_000) by (nonlinear_arith)
            requires abs(span as int) <= 4_000_000 && abs(num as int) <= 4_000_000;
        assert(abs((span * num) as int) <= 20_000_000_000_000 * den) by (nonlinear_arith)
            requires abs((span * num) as int) <= 16_000_000_000_000 && den >= 1;
        lemma_round_div_bound((span * num) as int, den as int, 20_000_000_000_000);
    }
    out_min + round_div_i64(span * num, den)
}

/// Computes the duty cycle for `angle` under the given calibration: a linear
/// remap of the angle range onto the duty-cycle range.
pub fn compute_duty_cycle(
    start_duty_cycle: i64,
    end_duty_cycle: i64,
    start_angle: i64,
    end_angle: i64,
    angle: i64,
) -> (r: i64)
    requires
        start_angle != end_angle,
        abs(angle as int) <= MAP_LIMIT,
        abs(start_angle as int) <= MAP_LIMIT,
        abs(end_angle as int) <= MAP_LIMIT,
        abs(start_duty_cycle as int) <= MAP_LIMIT,
        abs(end_duty_cycle as int) <= MAP_LIMIT,
    ensures
        r == duty_cycle_spec(
            start_duty_cycle as int,
            end_duty_cycle as int,
            start_angle as int,
            end_angle as int,
            angle as int,
        ),
{
    linear_map(angle, start_angle, end_angle, start_duty_cycle, end_duty_cycle)
}

/// At the calibrated start angle the duty cycle is exactly the start duty
/// cycle.
pub proof fn lemma_duty_cycle_at_start_angle(
    start_duty_cycle: int,
    end_duty_cycle: int,
    start_angle: int,
    end_angle: int,
)
    requires
        start_angle != end_angle,
    ensures
        duty_cycle_spec(start_duty_cycle, end_duty_cycle, start_angle, end_angle, start_angle)
            == start_duty_cycle,
{
    lemma_linear_map_at_start(start_angle, end_angle, start_duty_cycle, end_duty_cycle);
}

/// At the calibrated end angle the duty cycle is exactly the end duty cycle.
pub proof fn lemma_duty_cycle_at_end_angle(
    start_duty_cycle: int,
    end_duty_cycle: int,
    start_angle: int,
    end_angle: int,
)
    requires
        start_angle != end_angle,
    ensures
        duty_cycle_spec(start_duty_cycle, end_duty_cycle, start_angle, end_angle, end_angle)
            == end_duty_cycle,
{
    lemma_linear_map_at_end(start_angle, end_angle, start_duty_cycle, end_duty_cycle);
}

/// Under an ascending calibration a larger angle never yields a smaller duty
/// cycle.
pub proof fn lemma_duty_cycle_monotonic(
    start_duty_cycle: int,
    end_duty_cycle: int,
    start_angle: int,
    end_angle: int,
    angle1: int,
    angle2: int,
)
    requires
        start_angle < end_angle,
        start_duty_cycle <= end_duty_cycle,
        angle1 <= angle2,
    ensures
        duty_cycle_spec(start_duty_cycle, end_duty_cycle, start_angle, end_angle, angle1)
            <= duty_cycle_spec(start_duty_cycle, end_duty_cycle, start_angle, end_angle, angle2),
{
    lemma_linear_map_monotonic(
        angle1,
        angle2,
        start_angle,
        end_angle,
        start_duty_cycle,
        end_duty_cycle,
    );
}

/// At the start of the input range the map yields exactly the start output.
pub proof fn lemma_linear_map_at_start(in_min: int, in_max: int, out_min: int, out_max: int)
    requires
        in_min != in_max,
    ensures
        linear_map_spec(in_min, in_min, in_max, out_min, out_max) == out_min,
{
    if in_max > in_min {
        assert((out_max - out_min) * (in_min - in_min) == 0) by (nonlinear_arith);
        lemma_round_div_zero(in_max - in_min);
    } else {
        assert((out_max - out_min) * (in_min - in_min) == 0) by (nonlinear_arith);
        lemma_round_div_zero(in_min - in_max);
    }
}

/// At the end of the input range the map yields exactly the end output.
pub proof fn lemma_linear_map_at_end(in_min: int, in_max: int, out_min: int, out_max: int)
    requires
        in_min != in_max,
    ensures
        linear_map_spec(in_max, in_min, in_max, out_min, out_max) == out_max,
{
    if in_max > in_min {
        lemma_round_div_exact(out_max - out_min, in_max - in_min);
    } else {
        lemma_round_div_exact(out_max - out_min, in_min - in_max);
    }
}

/// With an ascending input range and a non-decreasing output range, the map
/// is monotone: a larger input never yields a smaller output.
pub proof fn lemma_linear_map_monotonic(
    x1: int,
    x2: int,
    in_min: int,
    in_max: int,
    out_min: int,
    out_max: int,
)
    requires
        in_min < in_max,
        out_min <= out_max,
        x1 <= x2,
    ensures
        linear_map_spec(x1, in_min, in_max, out_min, out_max)
            <= linear_map_spec(x2, in_min, in_max, out_min, out_max),
{
    let c = out_max - out_min;
    assert(c * (x1 - in_min) <= c * (x2 - in_min)) by (nonlinear_arith)
        requires c >= 0 && x1 <= x2;
    lemma_round_div_mono(c * (x1 - in_min), c * (x2 - in_min), in_max - in_min);
}

} // verus!
