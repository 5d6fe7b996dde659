//! Interpolated motion planning: the stepped sequence of angles a servo
//! writes to move from its current angle to a target at a given angular
//! speed, or within a given total duration.
//!
//! One duty-cycle quantization step of the chip moves the servo by the
//! calibration's step size; a motion is `round(distance / step_size)` writes,
//! each one step further toward the target, with a fixed sleep between them.
//! The plan is computed and proved here; an unverified shell performs the
//! writes and the sleeps.

use crate::rounding::{
    lemma_round_div_bound, lemma_round_div_error, lemma_round_div_nonneg, lemma_round_div_small,
    round_div, round_div_i64, round_div_u64,
};
use crate::settings::{step_size_spec, ServoSettings, ANGLE_LIMIT};
use crate::math::DUTY_SCALE;
use vstd::math::abs;
use vstd::prelude::*;

verus! {

/// Microseconds in one second: speeds are millidegrees per second, sleeps
/// microseconds.
pub const MICROS_PER_SECOND: i64 = 1_000_000;

/// No step size under the calibration invariant exceeds this bound.
pub const MAX_STEP_SIZE: i64 = 500_000_000;

/// Errors of motion planning.
#[derive(Debug, Clone, Copy)]
pub enum Error {
    /// A duration-based motion was asked to finish in no time at all.
    InvalidDuration,
}

/// The direction of a motion: `1` toward larger angles, `-1` toward smaller.
pub open spec fn motion_dir(current: int, target: int) -> int {
    if target >= current {
        1
    } else {
        -1
    }
}

/// The angular distance of a motion, in millidegrees.
pub open spec fn motion_distance(current: int, target: int) -> int {
    if target >= current {
        target - current
    } else {
        current - target
    }
}

/// The number of writes a motion performs: the distance in step sizes,
/// rounded.
pub open spec fn motion_step_count(s: ServoSettings, current: int, target: int) -> int {
    round_div(motion_distance(current, target), step_size_spec(s))
}

/// The angle of the motion's `i`-th write (counted from zero): one more step
/// size toward the target each time.
pub open spec fn motion_step_angle(s: ServoSettings, current: int, target: int, i: int) -> int {
    current + (i + 1) * step_size_spec(s) * motion_dir(current, target)
}

/// The sleep between two writes at `speed` millidegrees per second: the time
/// one step takes, in microseconds.
pub open spec fn step_interval_spec(s: ServoSettings, speed: int) -> int {
    round_div(step_size_spec(s) * MICROS_PER_SECOND, speed)
}

/// The speed that covers the motion's distance in `duration_micros`, never
/// slower than one millidegree per second.
pub open spec fn derived_speed_spec(current: int, target: int, duration_micros: int) -> int {
    vstd::math::max(
        1,
        round_div(motion_distance(current, target) * MICROS_PER_SECOND, duration_micros),
    )
}

/// A planned motion: the angles to write, in order, and the sleep between
/// consecutive writes.
#[derive(Debug, Clone)]
pub struct MotionPlan {
    /// The angles written, first to last, in millidegrees.
    pub steps: Vec<i64>,
    /// The pause between consecutive writes, in microseconds.
    pub interval_micros: u64,
}

/// Computes the calibration's step size: the angular change of one duty-cycle
/// quantization step, in millidegrees.
pub fn step_size(settings: &ServoSettings) -> (r: i64)
    requires
        settings.wf(),
    ensures
        r == step_size_spec(*settings),
        1 <= r <= MAX_STEP_SIZE,
{
    let num: i64 = (settings.end_angle - settings.start_angle) * DUTY_SCALE;
    let den: i64 = (settings.end_duty_cycle - settings.start_duty_cycle) * 4095;
    proof {
        assert(0 < settings.end_angle - settings.start_angle <= 2_000_000
            ==> 0 < (settings.end_angle - settings.start_angle) * DUTY_SCALE
                <= 2_000_000_000_000) by (nonlinear_arith)
            requires DUTY_SCALE == 1_000_000;
        assert(0 < settings.end_duty_cycle - settings.start_duty_cycle <= 1_000_000
            ==> 4095 <= (settings.end_duty_cycle - settings.start_duty_cycle) * 4095
                <= 4_095_000_000) by (nonlinear_arith);
        assert(num as int <= MAX_STEP_SIZE * den) by (nonlinear_arith)
            requires
                num <= 2_000_000_000_000,
                den >= 4095,
                MAX_STEP_SIZE == 500_000_000;
        lemma_round_div_bound(num as int, den as int, MAX_STEP_SIZE as int);
    }
    round_div_i64(num, den)
}

/// Plans the motion from `current_angle` to `target_angle` at `speed`
/// millidegrees per second: `round(distance / step_size)` writes, each one
/// step size further toward the target, with the step's duration slept
/// between writes. A zero-distance motion plans zero writes.
pub fn plan_with_speed(
    settings: &ServoSettings,
    current_angle: i64,
    target_angle: i64,
    speed: i64,
) -> (r: MotionPlan)
    requires
        settings.wf(),
        abs(current_angle as int) <= ANGLE_LIMIT,
        abs(target_angle as int) <= ANGLE_LIMIT,
        1 <= speed,
    ensures
        r.steps@.len() == motion_step_count(*settings, current_angle as int, target_angle as int),
        forall|i: int|
            0 <= i < r.steps@.len() ==> r.steps@[i] == motion_step_angle(
                *settings,
                current_angle as int,
                target_angle as int,
                i,
            ),
        r.interval_micros == step_interval_spec(*settings, speed as int),
        target_angle == current_angle ==> r.steps@.len() == 0,
{
    let step: i64 = step_size(settings);
    let dist: i64 = if target_angle >= current_angle {
        target_angle - current_angle
    } else {
        current_angle - target_angle
    };
    let n: i64 = round_div_i64(dist, step);
    proof {
        lemma_round_div_nonneg(dist as int, step as int);
        lemma_round_div_error(dist as int, step as int);
        assert(n as int * step as int <= dist as int + step as int) by (nonlinear_arith)
            requires
                2 * abs(n as int * step as int - dist as int) <= step as int,
                step >= 1;
        if target_angle == current_angle {
            lemma_round_div_small(0, step as int);
        }
    }
    let interval: i64 = step_interval(step, speed);
    let count: usize = n as usize;
    let mut steps: Vec<i64> = Vec::new();
    let mut i: usize = 0;
    while i < count
        invariant
            i <= count,
            count == motion_step_count(*settings, current_angle as int, target_angle as int),
            step == step_size_spec(*settings),
            1 <= step,
            dist == motion_distance(current_angle as int, target_angle as int),
            count as int * step as int <= dist as int + step as int,
            dist <= 2 * ANGLE_LIMIT,
            abs(current_angle as int) <= ANGLE_LIMIT,
            step <= MAX_STEP_SIZE,
            steps@.len() == i,
            forall|j: int|
                0 <= j < i ==> steps@[j] == motion_step_angle(
                    *settings,
                    current_angle as int,
                    target_angle as int,
                    j,
                ),
        decreases count - i,
    {
        proof {
            assert((i as int + 1) * step as int <= count as int * step as int) by (nonlinear_arith)
                requires i as int + 1 <= count as int && step >= 1;
            assert((i as int + 1) * step as int >= 1) by (nonlinear_arith)
                requires step >= 1 && i as int + 1 >= 1;
        }
        let offset: i64 = (i as i64 + 1) * step;
        let angle: i64 = if target_angle >= current_angle {
            current_angle + offset
        } else {
            current_angle - offset
        };
        proof {
            let s = step as int;
            let ii = i as int;
            if target_angle >= current_angle {
                assert((ii + 1) * s * 1 == (ii + 1) * s) by (nonlinear_arith);
            } else {
                assert((ii + 1) * s * -1 == -((ii + 1) * s)) by (nonlinear_arith);
            }
        }
        steps.push(angle);
        i = i + 1;
    }
    MotionPlan { steps, interval_micros: interval as u64 }
}

/// The sleep between two writes: the time one step of `step` millidegrees
/// takes at `speed` millidegrees per second, in microseconds.
fn step_interval(step: i64, speed: i64) -> (r: i64)
    requires
        1 <= step <= MAX_STEP_SIZE,
        1 <= speed,
    ensures
        r == round_div(step as int * MICROS_PER_SECOND, speed as int),
        r >= 0,
{
    proof {
        assert(step as int * MICROS_PER_SECOND <= 500_000_000_000_000) by (nonlinear_arith)
            requires step <= 500_000_000 && MICROS_PER_SECOND == 1_000_000;
        assert(step as int * MICROS_PER_SECOND >= 1) by (nonlinear_arith)
            requires step >= 1 && MICROS_PER_SECOND == 1_000_000;
    }
    let num: i64 = step * MICROS_PER_SECOND;
    if speed > 2_000_000_000_000_000i64 {
        proof {
            lemma_round_div_small(num as int, speed as int);
        }
        0
    } else {
        proof {
            lemma_round_div_nonneg(num as int, speed as int);
        }
        round_div_i64(num, speed)
    }
}

/// Plans the motion from `current_angle` to `target_angle` so that it takes
/// `duration_micros` overall: derives the speed that covers the distance in
/// that time and plans at that speed. A zero duration is rejected.
pub fn plan_with_duration(
    settings: &ServoSettings,
    current_angle: i64,
    target_angle: i64,
    duration_micros: u64,
) -> (r: Result<MotionPlan, Error>)
    requires
        settings.wf(),
        abs(current_angle as int) <= ANGLE_LIMIT,
        abs(target_angle as int) <= ANGLE_LIMIT,
    ensures
        r is Ok <==> duration_micros > 0,
        r is Err ==> r->Err_0 is InvalidDuration,
        r is Ok ==> {
            let plan = r->Ok_0;
            let speed = derived_speed_spec(
                current_angle as int,
                target_angle as int,
                duration_micros as int,
            );
            &&& plan.steps@.len() == motion_step_count(
                *settings,
                current_angle as int,
                target_angle as int,
            )
            &&& forall|i: int|
                0 <= i < plan.steps@.len() ==> plan.steps@[i] == motion_step_angle(
                    *settings,
                    current_angle as int,
                    target_angle as int,
                    i,
                )
            &&& plan.interval_micros == step_interval_spec(*settings, speed)
            &&& (target_angle == current_angle ==> plan.steps@.len() == 0)
        },
{
    if duration_micros == 0 {
        return Err(Error::InvalidDuration);
    }
    let dist: i64 = if target_angle >= current_angle {
        target_angle - current_angle
    } else {
        current_angle - target_angle
    };
    proof {
        assert(dist as int * MICROS_PER_SECOND <= 2_000_000_000_000) by (nonlinear_arith)
            requires 0 <= dist <= 2_000_000 && MICROS_PER_SECOND == 1_000_000;
        assert(dist as int * MICROS_PER_SECOND >= 0) by (nonlinear_arith)
            requires dist >= 0;
    }
    let scaled: u64 = (dist as u64) * 1_000_000u64;
    let speed: i64 = if duration_micros > 4_000_000_000_000u64 {
        proof {
            lemma_round_div_small(scaled as int, duration_micros as int);
        }
        1
    } else {
        proof {
            lemma_round_div_nonneg(scaled as int, duration_micros as int);
            assert(scaled as int <= scaled as int * duration_micros as int) by (nonlinear_arith)
                requires scaled >= 0 && duration_micros >= 1;
            lemma_round_div_bound(scaled as int, duration_micros as int, scaled as int);
        }
        let raw: u64 = round_div_u64(scaled, duration_micros);
        if raw == 0 {
            1
        } else {
            raw as i64
        }
    };
    Ok(plan_with_speed(settings, current_angle, target_angle, speed))
}

/// After the last write of a non-empty motion plan, the reached angle differs
/// from the target by less than one step size: quantization never leaves the
/// servo a full step away.
pub proof fn lemma_motion_final_angle(s: ServoSettings, current: int, target: int)
    requires
        s.wf(),
        motion_step_count(s, current, target) > 0,
    ensures
        abs(
            motion_step_angle(s, current, target, motion_step_count(s, current, target) - 1)
                - target,
        ) < step_size_spec(s),
{
    let step = step_size_spec(s);
    let dist = motion_distance(current, target);
    let dir = motion_dir(current, target);
    let n = motion_step_count(s, current, target);
    let last = motion_step_angle(s, current, target, n - 1);
    lemma_round_div_error(dist, step);
    assert((n - 1 + 1) * step * dir == n * step * dir) by (nonlinear_arith);
    if target >= current {
        assert(n * step * 1 == n * step) by (nonlinear_arith);
        assert(last - target == n * step - dist);
    } else {
        assert(n * step * -1 == -(n * step)) by (nonlinear_arith);
        assert(last - target == -(n * step - dist));
    }
}

/// The writes of a motion plan move strictly monotonically: toward larger
/// angles when the target lies above the current angle, toward smaller ones
/// otherwise.
pub proof fn lemma_motion_steps_monotonic(s: ServoSettings, current: int, target: int, i: int, j: int)
    requires
        s.wf(),
        0 <= i < j,
    ensures
        target >= current ==> motion_step_angle(s, current, target, i) < motion_step_angle(
            s,
            current,
            target,
            j,
        ),
        target < current ==> motion_step_angle(s, current, target, i) > motion_step_angle(
            s,
            current,
            target,
            j,
        ),
{
    let step = step_size_spec(s);
    if target >= current {
        assert((i + 1) * step * 1 < (j + 1) * step * 1) by (nonlinear_arith)
            requires 0 <= i < j && step >= 1;
    } else {
        assert((i + 1) * step * -1 > (j + 1) * step * -1) by (nonlinear_arith)
            requires 0 <= i < j && step >= 1;
    }
}

} // verus!
