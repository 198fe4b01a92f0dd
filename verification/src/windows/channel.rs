//! The event channel between the notification callback and the listener: a
//! bounded `flume` channel of route changes.
//!
//! Both ends are shared between threads, so what a call returns depends on
//! what the other end has done. Nothing is claimed here about the events in
//! the channel; only the capacity it was made with has a name.

use crate::common::RouteChange;
use vstd::prelude::*;

verus! {

#[verifier::external_type_specification]
#[verifier::external_body]
#[verifier::reject_recursive_types(T)]
pub struct ExSender<T>(flume::Sender<T>);

#[verifier::external_type_specification]
#[verifier::external_body]
#[verifier::reject_recursive_types(T)]
pub struct ExReceiver<T>(flume::Receiver<T>);

#[verifier::external_type_specification]
#[verifier::external_body]
#[verifier::reject_recursive_types(T)]
pub struct ExTrySendError<T>(flume::TrySendError<T>);

#[verifier::external_type_specification]
#[verifier::external_body]
pub struct ExRecvError(flume::RecvError);

/// The number of events that the channel behind `receiver` holds at most: the
/// capacity that `flume::bounded` was called with.
pub uninterp spec fn channel_capacity(receiver: flume::Receiver<RouteChange>) -> usize;

/// `flume::bounded`: a new channel. Claimed: the channel keeps the capacity
/// it is made with.
#[verifier::external_body]
pub(crate) fn bounded(capacity: usize) -> (ends: (
    flume::Sender<RouteChange>,
    flume::Receiver<RouteChange>,
))
    ensures
        channel_capacity(ends.1) == capacity,
{
    flume::bounded(capacity)
}

/// `flume::Sender::try_send`: offers an event without waiting. Nothing is
/// claimed of the result: it fails when the channel is full or no receiver is
/// left, which other threads decide.
#[verifier::external_body]
pub(crate) fn try_send(sender: &flume::Sender<RouteChange>, change: RouteChange) -> (sent: Result<
    (),
    flume::TrySendError<RouteChange>,
>) {
    sender.try_send(change)
}

/// `flume::Receiver::recv`: waits for the next event. Nothing is claimed of
/// the result: it is an event that a sender queued, or an error once every
/// sender is gone and the channel is empty.
#[verifier::external_body]
pub(crate) fn recv(receiver: &flume::Receiver<RouteChange>) -> (received: Result<
    RouteChange,
    flume::RecvError,
>) {
    receiver.recv()
}

} // verus!
