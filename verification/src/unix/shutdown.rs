//! Cancelling a blocked wait: the wake descriptor, the shutdown flag, and
//! what the outcome of a wait means.

use crate::error::RouteError;
use crate::unix::RouteListener;
use vstd::prelude::*;

verus! {

/// How the write to a wake descriptor ended.
#[derive(Clone, Copy, Debug, PartialEq, Eq, Structural)]
pub enum WakeWrite {
    /// All bytes were written.
    Written,
    /// The descriptor takes no more for now: an earlier wake is still
    /// pending.
    WouldBlock,
    /// The write failed with this error number.
    Failed(i32),
}

/// A wakeup primitive: a descriptor that becomes readable when it is written
/// to. It is one event descriptor, or the two ends of a pipe.
#[derive(Clone, Copy, Debug, PartialEq, Eq)]
pub struct EventFd {
    read_fd: i32,
    write_fd: i32,
}

impl EventFd {
    /// The descriptor to wait on.
    pub closed spec fn spec_as_event_fd(&self) -> i32 {
        self.read_fd
    }

    /// The descriptor to write to.
    pub closed spec fn spec_wake_fd(&self) -> i32 {
        self.write_fd
    }

    /// What a wake's write means: a pending earlier wake counts as success.
    pub open spec fn wake_result(written: WakeWrite) -> Result<(), RouteError> {
        match written {
            WakeWrite::Written => Ok(()),
            WakeWrite::WouldBlock => Ok(()),
            WakeWrite::Failed(os_error) => Err(RouteError::Os(os_error as i64)),
        }
    }

    /// From the outcome of creating an event descriptor: `event_fd` is what
    /// the call returned, `os_error` the error number it left. A negative
    /// descriptor is the failure.
    pub fn new(event_fd: i32, os_error: i32) -> (created: Result<EventFd, RouteError>)
        ensures
            match created {
                Ok(fd) => event_fd >= 0 && fd.as_event_fd() == event_fd && fd.wake_fd()
                    == event_fd,
                Err(error) => event_fd < 0 && error == RouteError::Os(os_error as i64),
            },
    {
        if event_fd < 0 {
            return Err(RouteError::Os(os_error as i64));
        }
        Ok(EventFd { read_fd: event_fd, write_fd: event_fd })
    }

    /// From the outcome of creating a pipe: `status` is what the call
    /// returned, `read_fd` and `write_fd` the ends it filled in, `os_error`
    /// the error number it left. A status of -1 is the failure.
    pub fn pipe(status: i32, read_fd: i32, write_fd: i32, os_error: i32) -> (created: Result<
        EventFd,
        RouteError,
    >)
        ensures
            match created {
                Ok(fd) => status != -1 && fd.as_event_fd() == read_fd && fd.wake_fd() == write_fd,
                Err(error) => status == -1 && error == RouteError::Os(os_error as i64),
            },
    {
        if status == -1 {
            return Err(RouteError::Os(os_error as i64));
        }
        Ok(EventFd { read_fd, write_fd })
    }

    /// The descriptor that a wake writes to.
    #[verifier::when_used_as_spec(spec_wake_fd)]
    pub fn wake_fd(&self) -> (fd: i32)
        ensures
            fd == self.spec_wake_fd(),
    {
        self.write_fd
    }

    /// The result of a wake, from how its write to [`EventFd::wake_fd`]
    /// ended.
    pub fn wake(&self, written: WakeWrite) -> (result: Result<(), RouteError>)
        ensures
            result == Self::wake_result(written),
    {
        match written {
            WakeWrite::Written => Ok(()),
            WakeWrite::WouldBlock => Ok(()),
            WakeWrite::Failed(os_error) => Err(RouteError::Os(os_error as i64)),
        }
    }

    /// The descriptor that a listener waits on beside its own.
    #[verifier::when_used_as_spec(spec_as_event_fd)]
    pub fn as_event_fd(&self) -> (fd: i32)
        ensures
            fd == self.spec_as_event_fd(),
    {
        self.read_fd
    }
}

/// What the outcome of a wait means. A shutdown ends the wait whatever else
/// is ready; otherwise -1 is the wait's own error, 0 a timeout, and anything
/// else says that there is something to read.
pub open spec fn wait_result(is_shutdown: bool, ready: i32, os_error: i32) -> Result<
    (),
    RouteError,
> {
    if is_shutdown {
        Err(RouteError::Terminated)
    } else if ready == -1 {
        Err(RouteError::Os(os_error as i64))
    } else if ready == 0 {
        Err(RouteError::TimedOut)
    } else {
        Ok(())
    }
}

/// One more than the larger of two descriptors: the number of descriptors
/// that a wait on both has to look at.
pub open spec fn descriptors_to_watch(fd: i32, event_fd: i32) -> int {
    if fd < event_fd {
        event_fd + 1
    } else {
        fd + 1
    }
}

impl RouteListener {
    /// The first argument of the wait on the notification descriptor and on
    /// `shutdown.event_fd()`.
    pub fn nfds(&self, shutdown: &RouteListenerShutdown) -> (nfds: i32)
        requires
            self.as_raw_fd() < i32::MAX,
            shutdown.event_fd().as_event_fd() < i32::MAX,
        ensures
            nfds == descriptors_to_watch(self.as_raw_fd(), shutdown.event_fd().as_event_fd()),
    {
        let fd = self.as_raw_fd();
        let event_fd = shutdown.event_fd.as_event_fd();
        if fd < event_fd {
            event_fd + 1
        } else {
            fd + 1
        }
    }

    /// What a wait on the notification descriptor and on
    /// `shutdown.event_fd()` came to: `ready` is what the wait returned,
    /// `os_error` the error number it left. The shutdown flag is looked at
    /// first, so a shutdown that came while waiting is never missed.
    pub fn wait(&self, shutdown: &RouteListenerShutdown, ready: i32, os_error: i32) -> (result:
        Result<(), RouteError>)
        ensures
            result == wait_result(shutdown.is_shutdown(), ready, os_error),
    {
        if shutdown.is_shutdown {
            return Err(RouteError::Terminated);
        }
        if ready == -1 {
            return Err(RouteError::Os(os_error as i64));
        }
        if ready == 0 {
            return Err(RouteError::TimedOut);
        }
        Ok(())
    }
}

/// The shutdown state of one listener: the flag and the wakeup primitive. The
/// embedding program shares it, behind a lock, among the listener and its
/// shutdown handles.
#[derive(Debug)]
pub struct RouteListenerShutdown {
    is_shutdown: bool,
    event_fd: EventFd,
}

impl RouteListenerShutdown {
    pub closed spec fn spec_is_shutdown(&self) -> bool {
        self.is_shutdown
    }

    pub closed spec fn event_fd(&self) -> EventFd {
        self.event_fd
    }

    /// The state after a shutdown: the flag is set, the wakeup primitive is
    /// the same.
    pub closed spec fn after_shutdown(&self) -> RouteListenerShutdown {
        RouteListenerShutdown { is_shutdown: true, event_fd: self.event_fd }
    }

    /// A shutdown state that is not shut down, from the outcome of creating
    /// its event descriptor: see [`EventFd::new`].
    pub fn new(event_fd: i32, os_error: i32) -> (created: Result<RouteListenerShutdown, RouteError>)
        ensures
            match created {
                Ok(state) => event_fd >= 0 && !state.is_shutdown() && state.event_fd().as_event_fd()
                    == event_fd && state.event_fd().wake_fd() == event_fd,
                Err(error) => event_fd < 0 && error == RouteError::Os(os_error as i64),
            },
    {
        match EventFd::new(event_fd, os_error) {
            Ok(event_fd) => Ok(RouteListenerShutdown { is_shutdown: false, event_fd }),
            Err(error) => Err(error),
        }
    }

    /// A shutdown state that is not shut down, around a wakeup primitive.
    pub fn with_event_fd(event_fd: EventFd) -> (state: RouteListenerShutdown)
        ensures
            !state.is_shutdown(),
            state.event_fd() == event_fd,
    {
        RouteListenerShutdown { is_shutdown: false, event_fd }
    }

    #[verifier::when_used_as_spec(spec_is_shutdown)]
    pub fn is_shutdown(&self) -> (done: bool)
        ensures
            done == self.spec_is_shutdown(),
    {
        self.is_shutdown
    }

    /// The wakeup primitive.
    pub fn wakeup(&self) -> (event_fd: &EventFd)
        ensures
            *event_fd == self.event_fd(),
    {
        &self.event_fd
    }

    /// Shuts the listener down: sets the flag, which is never cleared again,
    /// and returns the descriptor that the caller is then to write to. How
    /// that write ended goes to [`EventFd::wake`].
    pub fn shutdown(&mut self) -> (wake_fd: i32)
        ensures
            *final(self) == old(self).after_shutdown(),
            final(self).is_shutdown(),
            final(self).event_fd() == old(self).event_fd(),
            wake_fd == old(self).event_fd().wake_fd(),
    {
        self.is_shutdown = true;
        self.event_fd.wake_fd()
    }

    /// Shutting down twice is shutting down once, and a wake that finds an
    /// earlier wake still pending succeeds.
    pub proof fn lemma_shutdown_is_idempotent(self)
        ensures
            self.after_shutdown().is_shutdown(),
            self.after_shutdown().after_shutdown() == self.after_shutdown(),
            EventFd::wake_result(WakeWrite::Written) is Ok,
            EventFd::wake_result(WakeWrite::WouldBlock) is Ok,
    {
    }

    /// Once a listener is shut down, every wait ends in
    /// [`RouteError::Terminated`], whatever the wait itself returned, and so
    /// does `listen`, without reading anything.
    pub proof fn lemma_shutdown_ends_every_wait(self, ready: i32, os_error: i32)
        ensures
            wait_result(self.after_shutdown().is_shutdown(), ready, os_error) == Err::<
                (),
                RouteError,
            >(RouteError::Terminated),
            crate::unix::listen_action(
                self.after_shutdown().is_shutdown(),
                crate::unix::ListenEvent::Woken { ready, os_error },
            ) == crate::unix::ListenAction::Return(Err(RouteError::Terminated)),
    {
    }
}

} // verus!
