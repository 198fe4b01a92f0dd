use vstd::prelude::*;

verus! {

/// Why an operation on the routing table or on a listener did not succeed.
#[derive(Clone, Copy, Debug, PartialEq, Eq, Structural)]
pub enum RouteError {
    /// The operating system refused a call; the native status or errno is
    /// carried unchanged.
    Os(i64),
    /// The route cannot be written as a native row.
    Translation,
    /// The listener was shut down: the caller stops listening.
    Terminated,
    /// The wait ended without any descriptor being ready.
    TimedOut,
}

} // verus!
