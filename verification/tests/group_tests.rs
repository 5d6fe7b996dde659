//! Tests of the servo halves, the group writer's fan-out planning and the
//! group reader's pose feed.

use servo_arm::channels::RecvOutcome;
use servo_arm::group::ServoGroup;
use servo_arm::group_reader::{
    Error as ReaderError, RecvStep, ServoGroupReaderHandle, ServoGroupReaderTask,
};
use servo_arm::group_writer::{Error as GroupError, ServoGroupWriter};
use servo_arm::pose::{Pose, PoseChange};
use servo_arm::profiles::ServoSettingsProfiles;
use servo_arm::servo::Servo;

fn make_group() -> (ServoGroupWriter, ServoGroupReaderHandle, ServoGroupReaderTask) {
    ServoGroup::new(
        Servo::new(0, ServoSettingsProfiles::s06nf_01(), 0),
        Servo::new(1, ServoSettingsProfiles::s06nf_02(), 0),
        Servo::new(2, ServoSettingsProfiles::s06nf_03(), 0),
        Servo::new(3, ServoSettingsProfiles::s06nf_04(), 0),
        Servo::new(4, ServoSettingsProfiles::s06nf_05(), 0),
        Servo::new(5, ServoSettingsProfiles::s06nf_06(), 0),
    )
}

fn pose_change(angles: Vec<i64>, duration_micros: u64) -> PoseChange {
    PoseChange::new(Some(Pose::new(angles)), duration_micros)
}

#[test]
fn test_servo_new_and_read_angle() {
    let (writer, reader) = Servo::new(2, ServoSettingsProfiles::s06nf_03(), 7_000);
    assert_eq!(writer.current_angle, 7_000);
    assert_eq!(reader.read_angle(), 7_000);
}

#[test]
fn test_commit_write_publishes_angle() {
    let (mut writer, reader) = Servo::new(0, ServoSettingsProfiles::s06nf_01(), 0);
    writer.commit_write(5_000);
    assert_eq!(writer.current_angle, 5_000);
    assert_eq!(reader.read_angle(), 5_000);
}

#[test]
fn test_write_frame_bytes() {
    // Full-range calibration on channel 2: 90 degrees is half duty, which is
    // off-slot 2048 = 0x0800; channel 2 starts at register 0x0E.
    let settings = servo_arm::settings::ServoSettings::new()
        .with_start_angle(0)
        .with_end_angle(180_000)
        .with_start_duty_cycle(0)
        .with_end_duty_cycle(1_000_000);
    let (writer, _reader) = Servo::new(2, settings, 0);
    assert_eq!(writer.write_frame(90_000), vec![0x0E, 0x00, 0x00, 0x00, 0x08]);
}

#[test]
fn test_plan_pose_change_valid() {
    let (writer, _handle, _task) = make_group();
    let plans = writer
        .plan_pose_change(&pose_change(vec![10_000, 10_000, 0, -10_000, 0, 20_000], 1_000_000))
        .unwrap();
    assert_eq!(plans.len(), 6);
    // First servo: step size 468, so round(10000 / 468) == 21 writes.
    assert_eq!(plans[0].steps.len(), 21);
    // Third and fifth servo stay put: zero writes.
    assert_eq!(plans[2].steps.len(), 0);
    assert_eq!(plans[4].steps.len(), 0);
    // Fourth servo moves down.
    assert!(plans[3].steps[0] < 0);
}

#[test]
fn test_plan_pose_change_missing_pose() {
    let (writer, _handle, _task) = make_group();
    let result = writer.plan_pose_change(&PoseChange::new(None, 1_000_000));
    assert!(matches!(result, Err(GroupError::InvalidArgument)));
}

#[test]
fn test_plan_pose_change_wrong_arity() {
    let (writer, _handle, _task) = make_group();
    let result = writer.plan_pose_change(&pose_change(vec![0, 0, 0, 0, 0], 1_000_000));
    assert!(matches!(result, Err(GroupError::InvalidArgument)));
}

#[test]
fn test_plan_pose_change_zero_duration() {
    let (writer, _handle, _task) = make_group();
    let result = writer.plan_pose_change(&pose_change(vec![0, 0, 0, 0, 0, 0], 0));
    assert!(matches!(result, Err(GroupError::InvalidArgument)));
}

#[test]
fn test_plan_pose_change_out_of_range_angle() {
    let (writer, _handle, _task) = make_group();
    let result =
        writer.plan_pose_change(&pose_change(vec![0, 0, 5_000_000, 0, 0, 0], 1_000_000));
    assert!(matches!(result, Err(GroupError::InvalidArgument)));
}

#[test]
fn test_aggregate_results_all_ok() {
    assert!(ServoGroupWriter::aggregate_results(&vec![true; 6]).is_ok());
}

#[test]
fn test_aggregate_results_one_failure() {
    // One failed servo write turns the whole fan-out into one aggregate
    // error.
    let mut results = vec![true; 6];
    results[3] = false;
    assert!(matches!(
        ServoGroupWriter::aggregate_results(&results),
        Err(GroupError::Internal)
    ));
}

#[test]
fn test_snapshot_merges_near_simultaneous_changes() {
    // Two angle changes land on different servos before one snapshot: the
    // snapshot reflects both in a single merged pose.
    let (mut writer, _handle, task) = make_group();
    writer.writers[0].commit_write(3_000);
    writer.writers[1].commit_write(4_000);
    let pose = task.snapshot_pose();
    assert_eq!(pose.angles, vec![3_000, 4_000, 0, 0, 0, 0]);
}

#[test]
fn test_two_subscribers_see_same_pose() {
    let (_writer, mut handle, task) = make_group();
    let mut handle2 = handle.clone_handle();
    let pose = task.snapshot_pose();
    assert!(task.publish_pose(pose));
    let first = handle.try_recv_pose().unwrap().unwrap();
    let second = handle2.try_recv_pose().unwrap().unwrap();
    assert_eq!(first.angles, second.angles);
    assert_eq!(first.angles, vec![0; 6]);
    // Nothing further is queued on either handle.
    assert!(handle.try_recv_pose().unwrap().is_none());
    assert!(handle2.try_recv_pose().unwrap().is_none());
}

#[test]
fn test_recv_fails_once_task_is_gone() {
    let (_writer, mut handle, task) = make_group();
    drop(task);
    assert!(matches!(handle.try_recv_pose(), Err(ReaderError::TaskClosed)));
}

#[test]
fn test_lagged_subscriber_skips_to_newer_poses() {
    // Publish more poses than the backlog holds: the subscriber first learns
    // it lagged, then receives the oldest retained pose rather than failing.
    let (mut writer, mut handle, task) = make_group();
    let mut i: i64 = 0;
    while i < 70 {
        writer.writers[0].commit_write(i * 100);
        assert!(task.publish_pose(task.snapshot_pose()));
        i += 1;
    }
    let lagged = handle.try_recv_pose().unwrap();
    assert!(lagged.is_none());
    let next = handle.try_recv_pose().unwrap().unwrap();
    assert_eq!(next.angles[0], 600);
}

#[test]
fn test_recv_step_decisions() {
    let pose = Pose::new(vec![0; 6]);
    assert!(matches!(
        ServoGroupReaderHandle::recv_step(RecvOutcome::Received(pose)),
        RecvStep::Deliver(_)
    ));
    assert!(matches!(ServoGroupReaderHandle::recv_step(RecvOutcome::Empty), RecvStep::Retry));
    assert!(matches!(
        ServoGroupReaderHandle::recv_step(RecvOutcome::Lagged(12)),
        RecvStep::Retry
    ));
    assert!(matches!(ServoGroupReaderHandle::recv_step(RecvOutcome::Closed), RecvStep::Fail));
}

#[test]
fn test_group_writer_order() {
    let (writer, _handle, _task) = make_group();
    assert_eq!(writer.writers.len(), 6);
    let mut channel: u8 = 0;
    for w in writer.writers.iter() {
        assert_eq!(w.channel, channel);
        channel += 1;
    }
}
