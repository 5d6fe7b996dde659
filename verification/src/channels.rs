//! Trusted bindings to tokio's synchronization channels.
//!
//! Each servo publishes its latest angle through a watch channel: a
//! single-slot cell where a new value overwrites the old and every reader
//! sees only the most recent one. The group reader publishes merged poses
//! through a broadcast channel: a bounded ring fanned out to any number of
//! subscribers, where a slow subscriber skips overwritten poses. What a read
//! returns depends on concurrent senders, so the bindings state only what
//! holds of every outcome; the verified logic takes the values as they come.

use crate::pose::Pose;
use vstd::prelude::*;

verus! {

#[verifier::external_type_specification]
#[verifier::external_body]
#[verifier::reject_recursive_types(T)]
pub struct ExWatchSender<T>(tokio::sync::watch::Sender<T>);

#[verifier::external_type_specification]
#[verifier::external_body]
#[verifier::reject_recursive_types(T)]
pub struct ExWatchReceiver<T>(tokio::sync::watch::Receiver<T>);

#[verifier::external_type_specification]
#[verifier::external_body]
#[verifier::reject_recursive_types(T)]
pub struct ExBroadcastSender<T>(tokio::sync::broadcast::Sender<T>);

#[verifier::external_type_specification]
#[verifier::external_body]
#[verifier::reject_recursive_types(T)]
pub struct ExBroadcastReceiver<T>(tokio::sync::broadcast::Receiver<T>);

/// Relies on tokio's `watch::channel`: creates a single-slot cell holding
/// `init`, returning the sender and receiver ends that share it.
#[verifier::external_body]
pub(crate) fn watch_channel(init: i64) -> (r: (
    tokio::sync::watch::Sender<i64>,
    tokio::sync::watch::Receiver<i64>,
)) {
    tokio::sync::watch::channel(init)
}

/// Relies on `watch::Sender::send`: overwrites the slot with `value` and
/// notifies waiting receivers. The call fails only when every receiver is
/// gone; the update is then dropped, which is of no consequence because the
/// sending servo keeps its own angle state.
#[verifier::external_body]
pub(crate) fn watch_send(sender: &tokio::sync::watch::Sender<i64>, value: i64) {
    let _ = sender.send(value);
}

/// Relies on `watch::Receiver::borrow`: yields the value most recently sent
/// into the slot. Which value that is depends on concurrent senders, so
/// nothing more is stated.
#[verifier::external_body]
pub(crate) fn watch_value(receiver: &tokio::sync::watch::Receiver<i64>) -> (r: i64) {
    *receiver.borrow()
}

/// Relies on `watch::Receiver::clone`: another receiver of the same slot,
/// notified of the same changes.
#[verifier::external_body]
pub(crate) fn watch_subscribe(receiver: &tokio::sync::watch::Receiver<i64>) -> (r:
    tokio::sync::watch::Receiver<i64>) {
    receiver.clone()
}

/// Relies on tokio's `broadcast::channel`: a ring of `capacity` pose slots
/// fanned out to every subscriber. The call panics on a zero capacity and on
/// capacities above `usize::MAX / 2`, which the precondition excludes.
#[verifier::external_body]
pub(crate) fn broadcast_channel(capacity: usize) -> (r: (
    tokio::sync::broadcast::Sender<Pose>,
    tokio::sync::broadcast::Receiver<Pose>,
))
    requires
        1 <= capacity <= usize::MAX / 2,
{
    tokio::sync::broadcast::channel(capacity)
}

/// Relies on `broadcast::Sender::send`: queues the pose for every current
/// subscriber and reports whether at least one subscriber existed. How many
/// there are depends on concurrent drops, so nothing more is stated.
#[verifier::external_body]
pub(crate) fn broadcast_send(sender: &tokio::sync::broadcast::Sender<Pose>, pose: Pose) -> (r:
    bool) {
    sender.send(pose).is_ok()
}

/// The outcome of one attempt to receive from the pose broadcast.
#[derive(Debug)]
pub enum RecvOutcome {
    /// The next queued pose.
    Received(Pose),
    /// Nothing is queued right now; the feed is still live.
    Empty,
    /// This subscriber fell behind: the given number of poses were
    /// overwritten before it read them. Newer poses are still coming.
    Lagged(u64),
    /// The producing end is gone; no further pose will ever arrive.
    Closed,
}

/// Relies on `broadcast::Receiver::try_recv`: yields the next queued pose or
/// reports the feed empty, lagged or closed; one arm per outcome of the call.
#[verifier::external_body]
pub(crate) fn broadcast_try_recv(receiver: &mut tokio::sync::broadcast::Receiver<Pose>) -> (r:
    RecvOutcome) {
    match receiver.try_recv() {
        Ok(pose) => RecvOutcome::Received(pose),
        Err(tokio::sync::broadcast::error::TryRecvError::Empty) => RecvOutcome::Empty,
        Err(tokio::sync::broadcast::error::TryRecvError::Lagged(n)) => RecvOutcome::Lagged(n),
        Err(tokio::sync::broadcast::error::TryRecvError::Closed) => RecvOutcome::Closed,
    }
}

/// Relies on `broadcast::Receiver::resubscribe`: another independent
/// subscriber to the same feed, starting at the feed's current tail.
#[verifier::external_body]
pub(crate) fn broadcast_resubscribe(receiver: &tokio::sync::broadcast::Receiver<Pose>) -> (r:
    tokio::sync::broadcast::Receiver<Pose>) {
    receiver.resubscribe()
}

} // verus!
