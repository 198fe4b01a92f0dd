//! The callback-driven family: the operating system calls into the program
//! on every change of the routing table.
//!
//! The program registers a callback and gets a subscription. The callback
//! decodes each notification and offers it to a bounded channel; the listener
//! waits on the other end. Shutting down takes the subscription and the
//! channel's sending end out of their slot, once: whoever gets them cancels
//! the subscription and then drops the sender, which ends the listener's wait.
//!
//! Calls into the operating system are the embedding program's. This module
//! decides what is handed to them and what their results mean.

pub mod channel;
pub mod ffi;

use crate::common::{Route, RouteChange};
use crate::error::RouteError;
use crate::windows::channel::channel_capacity;
use crate::sequences::{
    lemma_filter_map_add, lemma_filter_map_has, lemma_filter_map_keeps_order,
    lemma_filter_map_none, read_as, reads,
};
use crate::windows::ffi::{
    lemma_row_round_trip, route_of, route_to_row, row_of, row_to_route, NativeRow,
};
use vstd::prelude::*;

verus! {

/// The status with which the operating system reports success.
pub const ERROR_SUCCESS: u32 = 0;

/// Notification type: a parameter of an existing row changed.
pub const MIB_PARAMETER_NOTIFICATION: i32 = 0;

/// Notification type: a row was added.
pub const MIB_ADD_INSTANCE: i32 = 1;

/// Notification type: a row was deleted.
pub const MIB_DELETE_INSTANCE: i32 = 2;

/// The number of events that a listener's channel holds at most.
pub const EVENT_CAPACITY: usize = 128;

/// What a status of the operating system means: success, or an error that
/// carries the status unchanged.
pub open spec fn spec_status_result(status: u32) -> Result<(), RouteError> {
    if status == ERROR_SUCCESS {
        Ok(())
    } else {
        Err(RouteError::Os(status as i64))
    }
}

/// Reads a status of the operating system.
#[verifier::when_used_as_spec(spec_status_result)]
pub fn status_result(status: u32) -> (result: Result<(), RouteError>)
    ensures
        result == spec_status_result(status),
{
    if status == ERROR_SUCCESS {
        Ok(())
    } else {
        Err(RouteError::Os(status as i64))
    }
}

/// The event that a notification stands for: the row read as a route, under
/// the kind of change that the notification type names. There is none where
/// the row stands for no route or the type names no change.
pub open spec fn spec_notification_event(row: NativeRow, notification_type: i32) -> Option<
    RouteChange,
> {
    match route_of(row) {
        None => None,
        Some(route) => if notification_type == MIB_PARAMETER_NOTIFICATION {
            Some(RouteChange::Change(route))
        } else if notification_type == MIB_ADD_INSTANCE {
            Some(RouteChange::Add(route))
        } else if notification_type == MIB_DELETE_INSTANCE {
            Some(RouteChange::Delete(route))
        } else {
            None
        },
    }
}

/// Decodes one notification: the event it stands for, if any.
pub fn notification_event(row: &NativeRow, notification_type: i32) -> (event: Option<RouteChange>)
    ensures
        event == spec_notification_event(*row, notification_type),
{
    match row_to_route(row) {
        None => None,
        Some(route) => {
            if notification_type == MIB_PARAMETER_NOTIFICATION {
                Some(RouteChange::Change(route))
            } else if notification_type == MIB_ADD_INSTANCE {
                Some(RouteChange::Add(route))
            } else if notification_type == MIB_DELETE_INSTANCE {
                Some(RouteChange::Delete(route))
            } else {
                None
            }
        },
    }
}

/// What became of one notification.
#[derive(Clone, Copy, Debug, PartialEq, Eq, Structural)]
pub enum Delivery {
    /// It stands for no event and was passed over.
    Skipped,
    /// Its event is in the channel.
    Queued,
    /// Its event was lost: the channel was full or the listener is gone.
    Dropped,
}

/// What an attempt to queue an event means for its notification. A failure
/// is not retried and not reported.
pub fn delivery_of(sent: Result<(), flume::TrySendError<RouteChange>>) -> (delivery: Delivery)
    ensures
        delivery == if sent is Ok {
            Delivery::Queued
        } else {
            Delivery::Dropped
        },
{
    match sent {
        Ok(_) => Delivery::Queued,
        Err(_) => Delivery::Dropped,
    }
}

/// Handles one notification of the operating system: decodes it and, where it
/// stands for an event, offers [`notification_event`] of it to the channel
/// without waiting.
///
/// Whether an offered event is queued or dropped is the channel's to say.
pub fn callback(
    sender: &flume::Sender<RouteChange>,
    row: &NativeRow,
    notification_type: i32,
) -> (delivery: Delivery)
    ensures
        delivery == Delivery::Skipped <==> spec_notification_event(*row, notification_type) is None,
{
    match notification_event(row, notification_type) {
        None => Delivery::Skipped,
        Some(event) => delivery_of(channel::try_send(sender, event)),
    }
}

/// One notification as the operating system hands it to the callback.
pub struct Notification {
    pub row: NativeRow,
    pub notification_type: i32,
}

/// A notification read as the event it stands for, if any.
pub open spec fn event_of() -> spec_fn(Notification) -> Option<RouteChange> {
    |n: Notification| spec_notification_event(n.row, n.notification_type)
}

/// The events that the callback offers to the channel over a stream of
/// notifications, in the order it offers them.
pub open spec fn offered(stream: Seq<Notification>) -> Seq<RouteChange> {
    stream.filter_map(event_of())
}

/// Notifications that stand for no event leave no trace: with any run of them
/// between two streams, the callback offers what it offers for the first
/// stream and then what it offers for the second.
pub proof fn lemma_skipped_notifications_leave_no_trace(
    before: Seq<Notification>,
    skipped: Seq<Notification>,
    after: Seq<Notification>,
)
    requires
        forall|i: int|
            0 <= i < skipped.len() ==> spec_notification_event(
                (#[trigger] skipped[i]).row,
                skipped[i].notification_type,
            ) is None,
    ensures
        offered(before + skipped + after) == offered(before) + offered(after),
{
    assert forall|i: int| 0 <= i < skipped.len() implies event_of()(#[trigger] skipped[i]) is None by {
        assert(spec_notification_event(skipped[i].row, skipped[i].notification_type) is None);
    }
    lemma_filter_map_none(skipped, event_of());
    lemma_filter_map_add(before, skipped, event_of());
    lemma_filter_map_add(before + skipped, after, event_of());
    assert(offered(before) + Seq::<RouteChange>::empty() =~= offered(before));
}

/// The callback offers exactly the notifications that stand for an event, in
/// the order in which they came, each as the event it stands for.
pub proof fn lemma_offered_keeps_order(stream: Seq<Notification>)
    ensures
        offered(stream) == stream.filter(reads(event_of())).map_values(read_as(event_of())),
{
    lemma_filter_map_keeps_order(stream, event_of());
}

/// Both ends of a listener's event channel, before the callback is
/// registered. The sender lies in a box: its address stays the same for as
/// long as the box lives, wherever the box is moved.
pub struct EventChannel {
    sender: Box<flume::Sender<RouteChange>>,
    receiver: flume::Receiver<RouteChange>,
}

impl EventChannel {
    pub closed spec fn spec_sender(&self) -> flume::Sender<RouteChange> {
        *self.sender
    }

    pub closed spec fn spec_receiver(&self) -> flume::Receiver<RouteChange> {
        self.receiver
    }

    /// A new channel of [`EVENT_CAPACITY`] events.
    pub fn new() -> (channel: EventChannel)
        ensures
            channel_capacity(channel.spec_receiver()) == EVENT_CAPACITY,
    {
        let (sender, receiver) = channel::bounded(EVENT_CAPACITY);
        EventChannel { sender: Box::new(sender), receiver }
    }

    /// The sending end, which the callback is registered with.
    pub fn sender(&self) -> (sender: &flume::Sender<RouteChange>)
        ensures
            *sender == self.spec_sender(),
    {
        &*self.sender
    }
}

/// What a live subscription holds: the token under which the operating
/// system knows it, and the sending end that its callback uses.
pub struct RouteHandle {
    subscription: usize,
    sender: Box<flume::Sender<RouteChange>>,
}

impl RouteHandle {
    pub closed spec fn spec_subscription(&self) -> usize {
        self.subscription
    }

    pub closed spec fn spec_sender(&self) -> flume::Sender<RouteChange> {
        *self.sender
    }

    /// The token to cancel the subscription with.
    #[verifier::when_used_as_spec(spec_subscription)]
    pub fn subscription(&self) -> (token: usize)
        ensures
            token == self.spec_subscription(),
    {
        self.subscription
    }

    /// The sending end that the subscription's callback uses.
    pub fn sender(&self) -> (sender: &flume::Sender<RouteChange>)
        ensures
            *sender == self.spec_sender(),
    {
        &*self.sender
    }
}

/// Takes the subscription out of its slot. The first call gets it and is to
/// cancel the subscription and then drop the handle; every later call gets
/// nothing and has nothing to do.
pub fn shutdown(handle: &mut Option<RouteHandle>) -> (released: Option<RouteHandle>)
    ensures
        released == *old(handle),
        *final(handle) is None,
{
    handle.take()
}

/// The shutdown state of one listener: the slot that holds its subscription
/// until the first shutdown. The embedding program shares it, behind a lock,
/// among the listener and its shutdown handles.
pub struct RouteListenerShutdown {
    handle: Option<RouteHandle>,
}

impl RouteListenerShutdown {
    /// What the slot holds.
    pub closed spec fn handle(&self) -> Option<RouteHandle> {
        self.handle
    }

    /// The subscription has been taken.
    pub open spec fn spec_is_shutdown(&self) -> bool {
        self.handle() is None
    }

    /// The state after a shutdown: the slot is empty.
    pub closed spec fn after_shutdown(&self) -> RouteListenerShutdown {
        RouteListenerShutdown { handle: None }
    }

    #[verifier::when_used_as_spec(spec_is_shutdown)]
    pub fn is_shutdown(&self) -> (done: bool)
        ensures
            done == self.spec_is_shutdown(),
    {
        self.handle.is_none()
    }

    /// The sending end for the callback, while the subscription is live.
    pub fn sender(&self) -> (sender: Option<&flume::Sender<RouteChange>>)
        ensures
            match sender {
                Some(s) => self.handle() matches Some(h) && *s == h.spec_sender(),
                None => self.handle() is None,
            },
    {
        match &self.handle {
            Some(handle) => Some(handle.sender()),
            None => None,
        }
    }

    /// Shuts the listener down. Returns what the caller has to release: the
    /// live subscription at the first call, nothing afterwards. The caller
    /// cancels the subscription and then drops the handle; dropping it closes
    /// the channel, so that a waiting `listen` returns.
    pub fn shutdown(&mut self) -> (released: Option<RouteHandle>)
        ensures
            released == old(self).handle(),
            *final(self) == old(self).after_shutdown(),
            final(self).is_shutdown(),
    {
        shutdown(&mut self.handle)
    }

    /// Shutting down twice releases the subscription once: after a first
    /// shutdown the slot is empty, so a second one returns nothing and leaves
    /// the state as it is.
    pub proof fn lemma_shutdown_is_idempotent(self)
        ensures
            self.after_shutdown().handle() is None,
            self.after_shutdown().is_shutdown(),
            self.after_shutdown().after_shutdown() == self.after_shutdown(),
    {
    }
}

/// The receiving side of a route-change listener.
pub struct RouteListener {
    receiver: flume::Receiver<RouteChange>,
}

/// `pair` is the listener and shutdown state of the subscription that was
/// registered with `channel`: the listener holds the channel's receiving end,
/// and the slot holds the subscription with the sending end.
pub open spec fn subscribed(
    pair: (RouteListener, RouteListenerShutdown),
    subscription: usize,
    channel: EventChannel,
) -> bool {
    &&& pair.0.spec_receiver() == channel.spec_receiver()
    &&& pair.1.handle() matches Some(handle)
    &&& handle.subscription() == subscription
    &&& handle.spec_sender() == channel.spec_sender()
}

impl RouteListener {
    pub closed spec fn spec_receiver(&self) -> flume::Receiver<RouteChange> {
        self.receiver
    }

    /// Builds a listener from the outcome of registering the callback with
    /// `channel.sender()`: the status that the registration returned and the
    /// subscription it gave.
    ///
    /// On success the listener holds the channel's receiving end, and the
    /// shutdown state holds the subscription with the sending end. On any
    /// other status the channel is dropped and the status is the error.
    pub fn new(status: u32, subscription: usize, channel: EventChannel) -> (listener: Result<
        (RouteListener, RouteListenerShutdown),
        RouteError,
    >)
        ensures
            match listener {
                Ok(pair) => status == ERROR_SUCCESS && subscribed(pair, subscription, channel),
                Err(error) => status_result(status) == Err::<(), RouteError>(error),
            },
    {
        match status_result(status) {
            Err(error) => Err(error),
            Ok(_) => {
                let EventChannel { sender, receiver } = channel;
                Ok(
                    (
                        RouteListener { receiver },
                        RouteListenerShutdown { handle: Some(RouteHandle { subscription, sender }) },
                    ),
                )
            },
        }
    }

    /// What the outcome of waiting on the channel means: the event, or
    /// [`RouteError::Terminated`] once the channel is closed.
    pub fn received(outcome: Result<RouteChange, flume::RecvError>) -> (change: Result<
        RouteChange,
        RouteError,
    >)
        ensures
            change == match outcome {
                Ok(event) => Ok::<RouteChange, RouteError>(event),
                Err(_) => Err::<RouteChange, RouteError>(RouteError::Terminated),
            },
    {
        match outcome {
            Ok(event) => Ok(event),
            Err(_) => Err(RouteError::Terminated),
        }
    }

    /// Waits for the next route change. Returns it, or
    /// [`RouteError::Terminated`] once the sending end has been dropped and
    /// the channel is empty. Which of the two is the channel's to say.
    pub fn listen(&mut self) -> (change: Result<RouteChange, RouteError>)
        ensures
            change matches Err(error) ==> error == RouteError::Terminated,
            *final(self) == *old(self),
    {
        Self::received(channel::recv(&self.receiver))
    }
}

/// A call that the embedding program is to make into the operating system.
#[derive(Clone, Copy, Debug, PartialEq, Eq)]
pub enum RouteRequest {
    /// Create this forwarding entry.
    Create(NativeRow),
    /// Delete this forwarding entry.
    Delete(NativeRow),
}

/// The routes that a snapshot of the forwarding table stands for: each row
/// read as a route, in the table's order, rows that stand for none left out.
pub open spec fn listed(table: Seq<NativeRow>) -> Seq<Route> {
    table.filter_map(route_reading())
}

/// A row read as the route it stands for, if any.
pub open spec fn route_reading() -> spec_fn(NativeRow) -> Option<Route> {
    |row: NativeRow| route_of(row)
}

/// A table that holds the row of a valid route lists a route that matches
/// it.
pub proof fn lemma_added_route_is_listed(route: Route, table: Seq<NativeRow>)
    requires
        route.is_valid(),
        table.contains(row_of(route)),
    ensures
        exists|i: int| 0 <= i < listed(table).len() && route.matched_by(#[trigger] listed(table)[i]),
{
    let at = choose|i: int| 0 <= i < table.len() && table[i] == row_of(route);
    lemma_row_round_trip(route);
    lemma_filter_map_has(table, route_reading(), at);
    let read = route_of(row_of(route))->0;
    let found = choose|i: int| 0 <= i < listed(table).len() && listed(table)[i] == read;
    assert(route.matched_by(listed(table)[found]));
}

/// A table none of whose rows stands for a route that matches `route` lists
/// no route that matches it.
pub proof fn lemma_deleted_route_is_not_listed(route: Route, table: Seq<NativeRow>)
    requires
        forall|i: int|
            0 <= i < table.len() ==> !(route_of(#[trigger] table[i]) matches Some(read)
                && route.matched_by(read)),
    ensures
        forall|i: int|
            0 <= i < listed(table).len() ==> !route.matched_by(#[trigger] listed(table)[i]),
{
    assert forall|i: int| 0 <= i < listed(table).len() implies !route.matched_by(
        #[trigger] listed(table)[i],
    ) by {
        let read = listed(table)[i];
        assert(table.filter_map(route_reading()).contains(read));
        table.lemma_filter_map_contains(route_reading(), read);
        let row = choose|row: NativeRow| #[trigger]
            table.contains(row) && route_reading()(row) == Some(read);
        let at = choose|j: int| 0 <= j < table.len() && table[j] == row;
        assert(route_of(table[at]) == Some(read));
    }
}

/// Lists, adds and deletes routes, and makes listeners. It holds no state.
pub struct RouteManager {
    _private: (),
}

impl RouteManager {
    /// A new manager. This cannot fail.
    pub fn new() -> (manager: Result<RouteManager, RouteError>)
        ensures
            manager is Ok,
    {
        Ok(RouteManager { _private: () })
    }

    /// A new listener with its shutdown state: see [`RouteListener::new`].
    pub fn listener(status: u32, subscription: usize, channel: EventChannel) -> (listener: Result<
        (RouteListener, RouteListenerShutdown),
        RouteError,
    >)
        ensures
            match listener {
                Ok(pair) => status == ERROR_SUCCESS && subscribed(pair, subscription, channel),
                Err(error) => status_result(status) == Err::<(), RouteError>(error),
            },
    {
        RouteListener::new(status, subscription, channel)
    }

    /// The routes of a snapshot of the forwarding table. `status` is what the
    /// query for the snapshot returned, `table` the rows it gave. A failed
    /// query is the error; otherwise each row is read as a route and rows that
    /// stand for none are left out.
    pub fn list(&mut self, status: u32, table: &Vec<NativeRow>) -> (routes: Result<
        Vec<Route>,
        RouteError,
    >)
        ensures
            match routes {
                Ok(found) => status == ERROR_SUCCESS && found@ == listed(table@),
                Err(error) => status_result(status) == Err::<(), RouteError>(error),
            },
            *final(self) == *old(self),
    {
        if let Err(error) = status_result(status) {
            return Err(error);
        }
        let mut found: Vec<Route> = Vec::new();
        let mut i: usize = 0;
        while i < table.len()
            invariant
                i <= table.len(),
                found@ == listed(table@.take(i as int)),
            decreases table.len() - i,
        {
            proof {
                table@.lemma_filter_map_take_succ(route_reading(), i as int);
            }
            if let Some(route) = row_to_route(&table[i]) {
                found.push(route);
            }
            i += 1;
        }
        assert(table@.take(table.len() as int) == table@);
        Ok(found)
    }

    /// Asks for `route` to be added: the request to create its row, or
    /// [`RouteError::Translation`] where the route has no row, in which case
    /// there is nothing to ask the operating system.
    pub fn add(&mut self, route: &Route) -> (request: Result<RouteRequest, RouteError>)
        ensures
            route.is_valid() ==> request == Ok::<RouteRequest, RouteError>(
                RouteRequest::Create(row_of(*route)),
            ),
            !route.is_valid() ==> request == Err::<RouteRequest, RouteError>(
                RouteError::Translation,
            ),
            *final(self) == *old(self),
    {
        match route_to_row(route) {
            Ok(row) => Ok(RouteRequest::Create(row)),
            Err(error) => Err(error),
        }
    }

    /// Asks for `route` to be deleted: the request to delete its row, or
    /// [`RouteError::Translation`] where the route has no row, in which case
    /// there is nothing to ask the operating system.
    pub fn delete(&mut self, route: &Route) -> (request: Result<RouteRequest, RouteError>)
        ensures
            route.is_valid() ==> request == Ok::<RouteRequest, RouteError>(
                RouteRequest::Delete(row_of(*route)),
            ),
            !route.is_valid() ==> request == Err::<RouteRequest, RouteError>(
                RouteError::Translation,
            ),
            *final(self) == *old(self),
    {
        match route_to_row(route) {
            Ok(row) => Ok(RouteRequest::Delete(row)),
            Err(error) => Err(error),
        }
    }

    /// What the status of a performed request means: see [`status_result`].
    pub fn complete(&mut self, status: u32) -> (result: Result<(), RouteError>)
        ensures
            result == status_result(status),
            *final(self) == *old(self),
    {
        status_result(status)
    }
}

} // verus!
