//! The group reader: turns per-servo angle changes into one broadcast pose
//! feed.
//!
//! Construction yields a one-time task and a subscriber handle. The task's
//! loop, run by the unverified shell, waits for any servo's angle to change,
//! sleeps a short settle delay so near-simultaneous changes of one command
//! coalesce, snapshots all current angles into one pose and broadcasts it;
//! it terminates when no subscriber remains. Any number of handles can be
//! derived from one feed, each independently receiving every published pose,
//! with the oldest dropped first for a subscriber that falls behind.

use crate::channels::{
    broadcast_channel, broadcast_resubscribe, broadcast_send, broadcast_try_recv, RecvOutcome,
};
use crate::pose::{Pose, SERVO_COUNT};
use crate::servo::ServoReader;
use vstd::prelude::*;

verus! {

/// Errors of the pose feed.
#[derive(Debug, Clone, Copy)]
pub enum Error {
    /// The aggregation task has terminated; no further pose will arrive.
    TaskClosed,
}

/// Settle delay after a detected change, in microseconds: long enough for
/// the per-servo updates of one multi-servo command to coalesce into one
/// snapshot.
pub const SETTLE_MICROS: u64 = 20_000;

/// Backlog of the pose broadcast: a subscriber more than this many poses
/// behind loses the oldest ones first.
pub const BROADCAST_CAPACITY: usize = 64;

/// Constructor of the group reader's task and handle.
pub struct ServoGroupReader;

impl ServoGroupReader {
    /// Creates the aggregation task over the six reader halves and the first
    /// subscriber handle of its pose feed.
    pub fn new(
        s01_r: ServoReader,
        s02_r: ServoReader,
        s03_r: ServoReader,
        s04_r: ServoReader,
        s05_r: ServoReader,
        s06_r: ServoReader,
    ) -> (r: (ServoGroupReaderTask, ServoGroupReaderHandle))
        ensures
            r.0.wf(),
            r.0.readers@ =~= seq![s01_r, s02_r, s03_r, s04_r, s05_r, s06_r],
    {
        let (pose_tx, pose_rx) = broadcast_channel(BROADCAST_CAPACITY);
        let mut readers: Vec<ServoReader> = Vec::new();
        readers.push(s01_r);
        readers.push(s02_r);
        readers.push(s03_r);
        readers.push(s04_r);
        readers.push(s05_r);
        readers.push(s06_r);
        (
            ServoGroupReaderTask { readers, pose_tx },
            ServoGroupReaderHandle { pose_rx },
        )
    }
}

/// The aggregation task: the readers it observes and the feed it publishes
/// to.
pub struct ServoGroupReaderTask {
    /// One reader per servo, in servo order.
    pub readers: Vec<ServoReader>,
    /// The pose feed's sending end.
    pub pose_tx: tokio::sync::broadcast::Sender<Pose>,
}

impl ServoGroupReaderTask {
    /// One reader per servo.
    pub open spec fn wf(self) -> bool {
        self.readers@.len() == SERVO_COUNT
    }

    /// Snapshots every servo's current angle into one merged pose, in servo
    /// order.
    pub fn snapshot_pose(&self) -> (r: Pose)
        requires
            self.wf(),
        ensures
            r.wf(),
    {
        let mut angles: Vec<i64> = Vec::new();
        let mut i: usize = 0;
        while i < self.readers.len()
            invariant
                i <= self.readers@.len(),
                angles@.len() == i,
            decreases self.readers@.len() - i,
        {
            angles.push(self.readers[i].read_angle());
            i = i + 1;
        }
        Pose { angles }
    }

    /// Publishes one merged pose to every subscriber; reports whether any
    /// subscriber remains. When none does, the shell ends the task's loop.
    pub fn publish_pose(&self, pose: Pose) -> bool {
        broadcast_send(&self.pose_tx, pose)
    }

    /// Handles the shell awaits angle changes on, one per servo, in servo
    /// order.
    pub fn wait_handles(&self) -> (r: Vec<tokio::sync::watch::Receiver<i64>>)
        ensures
            r@.len() == self.readers@.len(),
    {
        let mut handles: Vec<tokio::sync::watch::Receiver<i64>> = Vec::new();
        let mut i: usize = 0;
        while i < self.readers.len()
            invariant
                i <= self.readers@.len(),
                handles@.len() == i,
            decreases self.readers@.len() - i,
        {
            handles.push(self.readers[i].watch_handle());
            i = i + 1;
        }
        handles
    }
}

/// What one receive attempt on the pose feed should do next.
#[derive(Debug)]
pub enum RecvStep {
    /// Hand this pose to the caller.
    Deliver(Pose),
    /// Nothing to deliver yet; receive again.
    Retry,
    /// The feed has ended; report it closed.
    Fail,
}

/// A subscriber handle of the pose feed.
pub struct ServoGroupReaderHandle {
    /// This subscriber's receiving end.
    pub pose_rx: tokio::sync::broadcast::Receiver<Pose>,
}

impl ServoGroupReaderHandle {
    /// Decides what a receive attempt does with its outcome: a received pose
    /// is delivered; a lagged subscriber skips to newer poses rather than
    /// failing, since freshness matters more than completeness; only a
    /// terminated producer ends the feed.
    pub fn recv_step(outcome: RecvOutcome) -> (r: RecvStep)
        ensures
            outcome matches RecvOutcome::Received(p) ==> (r matches RecvStep::Deliver(q) && q
                == p),
            outcome is Empty ==> r is Retry,
            outcome is Lagged ==> r is Retry,
            outcome is Closed ==> r is Fail,
    {
        match outcome {
            RecvOutcome::Received(pose) => RecvStep::Deliver(pose),
            RecvOutcome::Empty => RecvStep::Retry,
            RecvOutcome::Lagged(_) => RecvStep::Retry,
            RecvOutcome::Closed => RecvStep::Fail,
        }
    }

    /// Polls the feed without waiting: the next pose if one is queued,
    /// nothing if the feed is merely empty or this subscriber lagged, the
    /// closed error once the task has terminated.
    pub fn try_recv_pose(&mut self) -> (r: Result<Option<Pose>, Error>)
        ensures
            r is Err ==> r->Err_0 is TaskClosed,
    {
        let outcome = broadcast_try_recv(&mut self.pose_rx);
        match Self::recv_step(outcome) {
            RecvStep::Deliver(pose) => Ok(Some(pose)),
            RecvStep::Retry => Ok(None),
            RecvStep::Fail => Err(Error::TaskClosed),
        }
    }

    /// Another independent subscriber to the same feed: it receives every
    /// pose published after this call.
    pub fn clone_handle(&self) -> ServoGroupReaderHandle {
        ServoGroupReaderHandle { pose_rx: broadcast_resubscribe(&self.pose_rx) }
    }

    /// A raw subscriber for the shell's awaiting receive loop.
    pub fn subscribe(&self) -> tokio::sync::broadcast::Receiver<Pose> {
        broadcast_resubscribe(&self.pose_rx)
    }
}

} // verus!
