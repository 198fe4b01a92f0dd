//! The blocking-wait family: the program waits on a notification descriptor
//! and reads what the operating system has written to it.
//!
//! A listener waits, in one indefinite wait, on two descriptors: the
//! notification descriptor and the wake descriptor of its shutdown state.
//! Shutting down sets a flag and then writes to the wake descriptor, which
//! ends the wait. The flag is looked at after every wait, before anything is
//! read.
//!
//! Waiting, reading and writing are the embedding program's. This module
//! decides what is waited on and what each outcome means.

pub mod shutdown;

use crate::common::RouteChange;
use crate::error::RouteError;
use crate::sequences::{lemma_filter_map_keeps_order, read_as, reads};
use crate::unix::shutdown::{wait_result, RouteListenerShutdown};
use vstd::prelude::*;

verus! {

/// What the embedding program observed while listening.
#[derive(Clone, Copy, Debug, PartialEq, Eq)]
pub enum ListenEvent {
    /// The wait returned `ready`; `os_error` is the error number it left.
    Woken { ready: i32, os_error: i32 },
    /// One notification was read; it decoded to this change, or to none.
    Notification(Option<RouteChange>),
}

/// What the embedding program does next while listening.
#[derive(Clone, Copy, Debug, PartialEq, Eq)]
pub enum ListenAction {
    /// Wait on both descriptors.
    Wait,
    /// Read one notification and decode it.
    Read,
    /// Stop: this is what `listen` returns.
    Return(Result<RouteChange, RouteError>),
}

/// The step that follows an event, given whether the listener has been shut
/// down. After a wait: the wait's error if it has one, else a read. After a
/// read: the change if the notification decoded to one, else another wait.
pub open spec fn listen_action(is_shutdown: bool, event: ListenEvent) -> ListenAction {
    match event {
        ListenEvent::Woken { ready, os_error } => match wait_result(is_shutdown, ready, os_error) {
            Ok(_) => ListenAction::Read,
            Err(error) => ListenAction::Return(Err(error)),
        },
        ListenEvent::Notification(Some(change)) => ListenAction::Return(Ok(change)),
        ListenEvent::Notification(None) => ListenAction::Wait,
    }
}

/// A notification as what it decoded to.
pub open spec fn decoded() -> spec_fn(Option<RouteChange>) -> Option<RouteChange> {
    |notification: Option<RouteChange>| notification
}

/// What a listener that is not shut down returns, call after call, over the
/// notifications that are read: each read either ends a call with a change or
/// sends the call back to waiting.
pub open spec fn listened(read: Seq<Option<RouteChange>>) -> Seq<RouteChange>
    decreases read.len(),
{
    if read.len() == 0 {
        Seq::empty()
    } else {
        let earlier = listened(read.drop_last());
        match listen_action(false, ListenEvent::Notification(read.last())) {
            ListenAction::Return(Ok(change)) => earlier.push(change),
            _ => earlier,
        }
    }
}

/// Notifications that decode to nothing are passed over in silence: what is
/// returned is exactly the changes that the others decoded to, in the order
/// in which they were read.
pub proof fn lemma_listened_skips_undecodable(read: Seq<Option<RouteChange>>)
    ensures
        listened(read) == read.filter_map(decoded()),
        listened(read) == read.filter(reads(decoded())).map_values(read_as(decoded())),
    decreases read.len(),
{
    if read.len() != 0 {
        lemma_listened_skips_undecodable(read.drop_last());
        let earlier = read.drop_last().filter_map(decoded());
        match read.last() {
            Some(change) => {
                assert(earlier.push(change) =~= earlier + seq![change]);
            },
            None => {},
        }
    }
    lemma_filter_map_keeps_order(read, decoded());
}

/// The listening side: the descriptor on which the operating system reports
/// changes of the routing table.
pub struct RouteListener {
    fd: i32,
}

impl RouteListener {
    pub closed spec fn spec_as_raw_fd(&self) -> i32 {
        self.fd
    }

    /// A listener on the notification descriptor `fd`.
    pub fn new(fd: i32) -> (listener: RouteListener)
        ensures
            listener.as_raw_fd() == fd,
    {
        RouteListener { fd }
    }

    /// The notification descriptor.
    #[verifier::when_used_as_spec(spec_as_raw_fd)]
    pub fn as_raw_fd(&self) -> (fd: i32)
        ensures
            fd == self.spec_as_raw_fd(),
    {
        self.fd
    }

    /// One step of `listen`. The embedding program starts with
    /// [`ListenAction::Wait`], performs each action, and hands back what it
    /// observed, until the action is [`ListenAction::Return`].
    pub fn listen(&self, shutdown: &RouteListenerShutdown, event: ListenEvent) -> (action:
        ListenAction)
        ensures
            action == listen_action(shutdown.is_shutdown(), event),
    {
        match event {
            ListenEvent::Woken { ready, os_error } => match self.wait(shutdown, ready, os_error) {
                Ok(_) => ListenAction::Read,
                Err(error) => ListenAction::Return(Err(error)),
            },
            ListenEvent::Notification(Some(change)) => ListenAction::Return(Ok(change)),
            ListenEvent::Notification(None) => ListenAction::Wait,
        }
    }
}

} // verus!
