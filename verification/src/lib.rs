//! Verified core of a cross-platform routing-table manager and its
//! cancellable route-change listener.
//!
//! The crate decides; it does not talk to the operating system. A program
//! that embeds it makes the system calls and hands their results in as plain
//! values, and shares a listener's shutdown state between its threads.
//!
//! - [`common`]: routes and route changes.
//! - [`windows`]: the callback-driven family, with the route manager, the
//!   native row and the event channel.
//! - [`unix`]: the blocking-wait family.
//! - [`sequences`]: facts about reading a sequence and leaving entries out.

pub mod common;
pub mod error;
pub mod sequences;
pub mod unix;
pub mod windows;

pub use common::{IpAddress, Route, RouteChange};
pub use error::RouteError;
