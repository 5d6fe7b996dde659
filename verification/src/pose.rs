//! Poses and pose-change commands: the values that cross the group layer's
//! boundary.

use vstd::prelude::*;

verus! {

/// Number of servos in the arm.
pub const SERVO_COUNT: usize = 6;

/// A snapshot of all servo angles at one instant, in millidegrees, in servo
/// order. Immutable once constructed.
#[derive(Debug, Clone)]
pub struct Pose {
    /// One angle per servo, in millidegrees.
    pub angles: Vec<i64>,
}

impl Pose {
    /// A pose carries exactly one angle per servo.
    pub open spec fn wf(self) -> bool {
        self.angles@.len() == SERVO_COUNT
    }

    /// Wraps the given angles as a pose; arity is validated where a pose
    /// enters the group layer.
    pub fn new(angles: Vec<i64>) -> (r: Self)
        ensures
            r.angles == angles,
    {
        Pose { angles }
    }
}

/// A commanded target pose plus the time budget to reach it. The duration
/// applies to every servo alike; each one derives its own speed from its own
/// distance.
#[derive(Debug, Clone)]
pub struct PoseChange {
    /// The commanded pose, if the request carried one.
    pub new_pose: Option<Pose>,
    /// The time budget, in microseconds.
    pub duration_micros: u64,
}

impl PoseChange {
    /// Builds a pose-change command.
    pub fn new(new_pose: Option<Pose>, duration_micros: u64) -> (r: Self)
        ensures
            r.new_pose == new_pose,
            r.duration_micros == duration_micros,
    {
        PoseChange { new_pose, duration_micros }
    }
}

} // verus!
