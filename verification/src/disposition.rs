//! How a machine took an event.
use vstd::prelude::*;

verus! {

/// What an event meant to the machine that was handed it.
#[derive(Debug, Clone, Copy, PartialEq, Eq, Structural)]
pub enum Disposition {
    /// The event does not answer the action that is pending: nothing changed.
    Ignored,
    /// The pending action succeeded, or a delay ran out.
    Progress,
    /// A failure that another attempt may cure: a name that did not resolve,
    /// a socket that did not connect, a network error of the session, a link
    /// that dropped or did not associate.
    Transient,
    /// A failure with which the session goes on all the same: a subscription
    /// that was not granted.
    Degraded,
    /// A failure that the publish/subscribe layer reports without saying
    /// that the network is at fault.
    Unclassified,
    /// A failure after which nothing is tried again.
    Fatal,
}

} // verus!
