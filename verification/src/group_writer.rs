//! The group writer: applies one pose-change command to all servos.
//!
//! A pose change is validated as a whole before any channel is touched, then
//! planned into one motion per servo; the unverified shell launches the six
//! motions together and waits for all of them. If any one fails the group
//! reports a single aggregate failure; the other motions still run to
//! completion, since physical motion cannot be rolled back.

use crate::motion::{
    derived_speed_spec, motion_step_angle, motion_step_count, step_interval_spec, MotionPlan,
};
use crate::pose::{PoseChange, SERVO_COUNT};
use crate::servo::ServoWriter;
use crate::settings::ANGLE_LIMIT;
use vstd::math::abs;
use vstd::prelude::*;

verus! {

/// Errors of the group writer.
#[derive(Debug, Clone, Copy)]
pub enum Error {
    /// The pose change was absent or malformed: no pose, wrong arity, an
    /// out-of-range angle, or a zero duration.
    InvalidArgument,
    /// At least one per-servo write failed.
    Internal,
}

/// A pose change the group can execute: a pose is present, carries one
/// in-range angle per servo, and the duration is positive.
pub open spec fn pose_change_valid(pc: PoseChange) -> bool {
    match pc.new_pose {
        Some(p) => {
            &&& p.angles@.len() == SERVO_COUNT
            &&& (forall|i: int|
                0 <= i < p.angles@.len() ==> abs(p.angles@[i] as int) <= ANGLE_LIMIT)
            &&& pc.duration_micros > 0
        },
        None => false,
    }
}

/// The writer halves of all servos, in servo order.
pub struct ServoGroupWriter {
    /// One writer per servo.
    pub writers: Vec<ServoWriter>,
}

impl ServoGroupWriter {
    /// One usable writer per servo.
    pub open spec fn wf(self) -> bool {
        &&& self.writers@.len() == SERVO_COUNT
        &&& forall|i: int| 0 <= i < self.writers@.len() ==> self.writers@[i].wf()
    }

    /// Gathers the six writer halves into a group.
    pub fn new(
        s01_w: ServoWriter,
        s02_w: ServoWriter,
        s03_w: ServoWriter,
        s04_w: ServoWriter,
        s05_w: ServoWriter,
        s06_w: ServoWriter,
    ) -> (r: Self)
        requires
            s01_w.wf(),
            s02_w.wf(),
            s03_w.wf(),
            s04_w.wf(),
            s05_w.wf(),
            s06_w.wf(),
        ensures
            r.wf(),
            r.writers@ =~= seq![s01_w, s02_w, s03_w, s04_w, s05_w, s06_w],
    {
        let mut writers: Vec<ServoWriter> = Vec::new();
        writers.push(s01_w);
        writers.push(s02_w);
        writers.push(s03_w);
        writers.push(s04_w);
        writers.push(s05_w);
        writers.push(s06_w);
        ServoGroupWriter { writers }
    }

    /// Validates a pose change and plans one motion per servo, each from that
    /// servo's current angle to its commanded angle within the shared
    /// duration. Absent or malformed input fails fast, before any channel is
    /// touched; a valid command yields exactly one plan per servo.
    pub fn plan_pose_change(&self, pose_change: &PoseChange) -> (r: Result<Vec<MotionPlan>, Error>)
        requires
            self.wf(),
        ensures
            r is Ok <==> pose_change_valid(*pose_change),
            r is Err ==> r->Err_0 is InvalidArgument,
            r is Ok ==> (pose_change.new_pose matches Some(p) && {
                let plans = r->Ok_0;
                &&& plans@.len() == SERVO_COUNT
                &&& forall|i: int|
                    #![trigger plans@[i]]
                    0 <= i < plans@.len() ==> {
                        let w = self.writers@[i];
                        let target = p.angles@[i] as int;
                        let speed = derived_speed_spec(
                            w.current_angle as int,
                            target,
                            pose_change.duration_micros as int,
                        );
                        &&& plans@[i].steps@.len() == motion_step_count(
                            w.settings,
                            w.current_angle as int,
                            target,
                        )
                        &&& (forall|k: int|
                            0 <= k < plans@[i].steps@.len() ==> plans@[i].steps@[k]
                                == motion_step_angle(w.settings, w.current_angle as int, target, k))
                        &&& plans@[i].interval_micros == step_interval_spec(w.settings, speed)
                    }
            }),
    {
        if pose_change.new_pose.is_none() {
            return Err(Error::InvalidArgument);
        }
        let pose: &crate::pose::Pose = pose_change.new_pose.as_ref().unwrap();
        if pose.angles.len() != SERVO_COUNT {
            return Err(Error::InvalidArgument);
        }
        if pose_change.duration_micros == 0 {
            return Err(Error::InvalidArgument);
        }
        let mut i: usize = 0;
        while i < SERVO_COUNT
            invariant
                i <= SERVO_COUNT,
                pose_change.new_pose is Some,
                pose_change.new_pose->0 == *pose,
                pose.angles@.len() == SERVO_COUNT,
                forall|j: int| 0 <= j < i ==> abs(pose.angles@[j] as int) <= ANGLE_LIMIT,
            decreases SERVO_COUNT - i,
        {
            let angle: i64 = pose.angles[i];
            if angle < -ANGLE_LIMIT || angle > ANGLE_LIMIT {
                proof {
                    assert(pose_change.new_pose->0 == *pose);
                    assert(abs(pose.angles@[i as int] as int) > ANGLE_LIMIT);
                    assert(!pose_change_valid(*pose_change));
                }
                return Err(Error::InvalidArgument);
            }
            i = i + 1;
        }
        let mut plans: Vec<MotionPlan> = Vec::new();
        let mut j: usize = 0;
        while j < SERVO_COUNT
            invariant
                j <= SERVO_COUNT,
                self.wf(),
                pose_change.new_pose is Some,
                pose_change.new_pose->0 == *pose,
                pose.angles@.len() == SERVO_COUNT,
                pose_change.duration_micros > 0,
                forall|k: int| 0 <= k < SERVO_COUNT ==> abs(pose.angles@[k] as int) <= ANGLE_LIMIT,
                plans@.len() == j,
                forall|i2: int|
                    #![trigger plans@[i2]]
                    0 <= i2 < j ==> {
                        let w = self.writers@[i2];
                        let target = pose.angles@[i2] as int;
                        let speed = derived_speed_spec(
                            w.current_angle as int,
                            target,
                            pose_change.duration_micros as int,
                        );
                        &&& plans@[i2].steps@.len() == motion_step_count(
                            w.settings,
                            w.current_angle as int,
                            target,
                        )
                        &&& (forall|k: int|
                            0 <= k < plans@[i2].steps@.len() ==> plans@[i2].steps@[k]
                                == motion_step_angle(w.settings, w.current_angle as int, target, k))
                        &&& plans@[i2].interval_micros == step_interval_spec(w.settings, speed)
                    },
            decreases SERVO_COUNT - j,
        {
            let writer = &self.writers[j];
            let plan = match writer.plan_with_duration(pose.angles[j], pose_change.duration_micros)
            {
                Ok(plan) => plan,
                Err(_) => {
                    proof {
                        assert(false);
                    }
                    return Err(Error::InvalidArgument);
                },
            };
            plans.push(plan);
            j = j + 1;
        }
        Ok(plans)
    }

    /// Folds the per-servo outcomes of one fan-out into the group's single
    /// result: success exactly when every servo's write succeeded, one
    /// aggregate failure otherwise.
    pub fn aggregate_results(results: &Vec<bool>) -> (r: Result<(), Error>)
        ensures
            r is Ok <==> (forall|i: int| 0 <= i < results@.len() ==> results@[i]),
            r is Err ==> r->Err_0 is Internal,
    {
        let mut i: usize = 0;
        while i < results.len()
            invariant
                i <= results@.len(),
                forall|j: int| 0 <= j < i ==> results@[j],
            decreases results@.len() - i,
        {
            if !results[i] {
                return Err(Error::Internal);
            }
            i = i + 1;
        }
        Ok(())
    }
}

} // verus!
