//! Calibration profiles for the servo models this arm is built from, one per
//! joint. Values were measured per physical unit; they are configuration, not
//! logic, and each profile satisfies the calibration invariant.

use crate::settings::{lemma_step_size_at_least_one, ServoSettings};
use vstd::prelude::*;

verus! {

/// The measured calibration profiles of the arm's six servos.
pub struct ServoSettingsProfiles;

impl ServoSettingsProfiles {
    /// Calibration of the first joint's servo.
    pub fn s06nf_01() -> (r: ServoSettings)
        ensures
            r == (ServoSettings {
                start_angle: -90_000i64,
                end_angle: 90_000i64,
                start_duty_cycle: 33_000i64,
                end_duty_cycle: 127_000i64,
            }),
            r.wf(),
    {
        let r = ServoSettings::new()
            .with_start_angle(-90_000)
            .with_end_angle(90_000)
            .with_start_duty_cycle(33_000)
            .with_end_duty_cycle(127_000);
        proof {
            lemma_step_size_at_least_one(r);
        }
        r
    }

    /// Calibration of the second joint's servo.
    pub fn s06nf_02() -> (r: ServoSettings)
        ensures
            r == (ServoSettings {
                start_angle: -90_000i64,
                end_angle: 90_000i64,
                start_duty_cycle: 21_000i64,
                end_duty_cycle: 127_000i64,
            }),
            r.wf(),
    {
        let r = ServoSettings::new()
            .with_start_angle(-90_000)
            .with_end_angle(90_000)
            .with_start_duty_cycle(21_000)
            .with_end_duty_cycle(127_000);
        proof {
            lemma_step_size_at_least_one(r);
        }
        r
    }

    /// Calibration of the third joint's servo.
    pub fn s06nf_03() -> (r: ServoSettings)
        ensures
            r == (ServoSettings {
                start_angle: -90_000i64,
                end_angle: 90_000i64,
                start_duty_cycle: 28_000i64,
                end_duty_cycle: 127_000i64,
            }),
            r.wf(),
    {
        let r = ServoSettings::new()
            .with_start_angle(-90_000)
            .with_end_angle(90_000)
            .with_start_duty_cycle(28_000)
            .with_end_duty_cycle(127_000);
        proof {
            lemma_step_size_at_least_one(r);
        }
        r
    }

    /// Calibration of the fourth joint's servo.
    pub fn s06nf_04() -> (r: ServoSettings)
        ensures
            r == (ServoSettings {
                start_angle: -90_000i64,
                end_angle: 90_000i64,
                start_duty_cycle: 24_000i64,
                end_duty_cycle: 128_000i64,
            }),
            r.wf(),
    {
        let r = ServoSettings::new()
            .with_start_angle(-90_000)
            .with_end_angle(90_000)
            .with_start_duty_cycle(24_000)
            .with_end_duty_cycle(128_000);
        proof {
            lemma_step_size_at_least_one(r);
        }
        r
    }

    /// Calibration of the fifth joint's servo.
    pub fn s06nf_05() -> (r: ServoSettings)
        ensures
            r == (ServoSettings {
                start_angle: -90_000i64,
                end_angle: 90_000i64,
                start_duty_cycle: 26_000i64,
                end_duty_cycle: 104_000i64,
            }),
            r.wf(),
    {
        let r = ServoSettings::new()
            .with_start_angle(-90_000)
            .with_end_angle(90_000)
            .with_start_duty_cycle(26_000)
            .with_end_duty_cycle(104_000);
        proof {
            lemma_step_size_at_least_one(r);
        }
        r
    }

    /// Calibration of the sixth joint's servo.
    pub fn s06nf_06() -> (r: ServoSettings)
        ensures
            r == (ServoSettings {
                start_angle: -90_000i64,
                end_angle: 90_000i64,
                start_duty_cycle: 26_000i64,
                end_duty_cycle: 104_000i64,
            }),
            r.wf(),
    {
        let r = ServoSettings::new()
            .with_start_angle(-90_000)
            .with_end_angle(90_000)
            .with_start_duty_cycle(26_000)
            .with_end_duty_cycle(104_000);
        proof {
            lemma_step_size_at_least_one(r);
        }
        r
    }
}

} // verus!
