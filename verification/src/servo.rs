//! The servo motion controller, split into its writer and reader halves.
//!
//! The writer owns the servo's channel, calibration and current angle; every
//! completed write updates the current angle and publishes it to a watch
//! slot. The reader half observes that slot. The bus write itself and the
//! waiting are performed by the unverified shell around the frames and plans
//! computed here.

use crate::calibration::{compute_duty_cycle, duty_cycle_spec};
use crate::channels::{watch_channel, watch_send, watch_subscribe, watch_value};
use crate::driver::{channel_duty_cycle_frame, channel_frame_spec};
use crate::math::off_value_spec;
use crate::motion::{
    derived_speed_spec, motion_step_angle, motion_step_count, plan_with_duration, plan_with_speed,
    step_interval_spec, MotionPlan,
};
use crate::registers::CHANNEL_COUNT;
use crate::settings::{ServoSettings, ANGLE_LIMIT};
use vstd::math::abs;
use vstd::prelude::*;

verus! {

/// The duty cycle this calibration assigns to `angle`.
pub open spec fn servo_duty_spec(s: ServoSettings, angle: int) -> int {
    duty_cycle_spec(
        s.start_duty_cycle as int,
        s.end_duty_cycle as int,
        s.start_angle as int,
        s.end_angle as int,
        angle,
    )
}

/// The writer half of one servo: applies angles to the servo's channel and
/// publishes each committed angle.
pub struct ServoWriter {
    /// The chip channel this servo is wired to.
    pub channel: u8,
    /// The servo's calibration.
    pub settings: ServoSettings,
    /// The servo's last committed angle, in millidegrees.
    pub current_angle: i64,
    /// The slot the committed angle is published through.
    pub angle_tx: tokio::sync::watch::Sender<i64>,
}

impl ServoWriter {
    /// A usable writer: a real channel, a sound calibration, an in-range
    /// angle.
    pub open spec fn wf(self) -> bool {
        &&& self.channel < CHANNEL_COUNT
        &&& self.settings.wf()
        &&& abs(self.current_angle as int) <= ANGLE_LIMIT
    }

    /// The bus frame of one write of `angle`: the angle's duty cycle under
    /// this servo's calibration, converted and framed for this servo's
    /// channel.
    pub fn write_frame(&self, angle: i64) -> (r: Vec<u8>)
        requires
            self.wf(),
            abs(angle as int) <= ANGLE_LIMIT,
        ensures
            r@ =~= channel_frame_spec(
                self.channel,
                0,
                off_value_spec(servo_duty_spec(self.settings, angle as int)) as u16,
            ),
    {
        let duty_cycle: i64 = compute_duty_cycle(
            self.settings.start_duty_cycle,
            self.settings.end_duty_cycle,
            self.settings.start_angle,
            self.settings.end_angle,
            angle,
        );
        channel_duty_cycle_frame(self.channel, duty_cycle)
    }

    /// Records one completed bus write: the current angle becomes `angle` and
    /// is published to the watch slot. A failed write is never committed, so
    /// failure leaves the current angle unchanged.
    pub fn commit_write(&mut self, angle: i64)
        requires
            old(self).wf(),
            abs(angle as int) <= ANGLE_LIMIT,
        ensures
            final(self).current_angle == angle,
            final(self).channel == old(self).channel,
            final(self).settings == old(self).settings,
            final(self).wf(),
    {
        self.current_angle = angle;
        watch_send(&self.angle_tx, angle);
    }

    /// Plans the motion from the current angle to `target_angle` at `speed`
    /// millidegrees per second; the shell writes and commits each step, then
    /// sleeps the plan's interval.
    pub fn plan_with_speed(&self, target_angle: i64, speed: i64) -> (r: MotionPlan)
        requires
            self.wf(),
            abs(target_angle as int) <= ANGLE_LIMIT,
            1 <= speed,
        ensures
            r.steps@.len() == motion_step_count(
                self.settings,
                self.current_angle as int,
                target_angle as int,
            ),
            forall|i: int|
                0 <= i < r.steps@.len() ==> r.steps@[i] == motion_step_angle(
                    self.settings,
                    self.current_angle as int,
                    target_angle as int,
                    i,
                ),
            r.interval_micros == step_interval_spec(self.settings, speed as int),
            target_angle == self.current_angle ==> r.steps@.len() == 0,
    {
        plan_with_speed(&self.settings, self.current_angle, target_angle, speed)
    }

    /// Plans the motion from the current angle to `target_angle` so that it
    /// takes `duration_micros` overall; a zero duration is rejected.
    pub fn plan_with_duration(&self, target_angle: i64, duration_micros: u64) -> (r: Result<
        MotionPlan,
        crate::motion::Error,
    >)
        requires
            self.wf(),
            abs(target_angle as int) <= ANGLE_LIMIT,
        ensures
            r is Ok <==> duration_micros > 0,
            r is Err ==> r->Err_0 is InvalidDuration,
            r is Ok ==> {
                let plan = r->Ok_0;
                let speed = derived_speed_spec(
                    self.current_angle as int,
                    target_angle as int,
                    duration_micros as int,
                );
                &&& plan.steps@.len() == motion_step_count(
                    self.settings,
                    self.current_angle as int,
                    target_angle as int,
                )
                &&& forall|i: int|
                    0 <= i < plan.steps@.len() ==> plan.steps@[i] == motion_step_angle(
                        self.settings,
                        self.current_angle as int,
                        target_angle as int,
                        i,
                    )
                &&& plan.interval_micros == step_interval_spec(self.settings, speed)
                &&& (target_angle == self.current_angle ==> plan.steps@.len() == 0)
            },
    {
        plan_with_duration(&self.settings, self.current_angle, target_angle, duration_micros)
    }
}

/// The reader half of one servo: observes the writer's published angle.
pub struct ServoReader {
    /// The slot the servo's committed angle arrives through.
    pub angle_rx: tokio::sync::watch::Receiver<i64>,
}

impl ServoReader {
    /// The servo's most recently published angle, in millidegrees. Which
    /// write it stems from depends on concurrent motion, so nothing more is
    /// stated.
    pub fn read_angle(&self) -> i64 {
        watch_value(&self.angle_rx)
    }

    /// A handle the shell awaits angle changes on.
    pub fn watch_handle(&self) -> tokio::sync::watch::Receiver<i64> {
        watch_subscribe(&self.angle_rx)
    }
}

/// Constructor of one servo's writer and reader halves.
pub struct Servo;

impl Servo {
    /// Creates the two halves sharing one angle slot that starts at
    /// `initial_angle`; the shell performs the servo's initial bus write
    /// before handing the halves to the group layer.
    pub fn new(channel: u8, settings: ServoSettings, initial_angle: i64) -> (r: (
        ServoWriter,
        ServoReader,
    ))
        requires
            channel < CHANNEL_COUNT,
            settings.wf(),
            abs(initial_angle as int) <= ANGLE_LIMIT,
        ensures
            r.0.wf(),
            r.0.channel == channel,
            r.0.settings == settings,
            r.0.current_angle == initial_angle,
    {
        let (angle_tx, angle_rx) = watch_channel(initial_angle);
        (
            ServoWriter { channel, settings, current_angle: initial_angle, angle_tx },
            ServoReader { angle_rx },
        )
    }
}

} // verus!
