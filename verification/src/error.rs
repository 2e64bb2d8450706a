//! Failures that the session layer reports.

use vstd::prelude::*;

verus! {

/// Why an operation on a session did not yield a buffer.
#[derive(Clone, Copy, Debug, PartialEq, Eq, Structural)]
pub enum Error {
    /// The driver had no room for another outgoing packet; worth retrying
    /// once some packets have drained.
    AllocationFailed,
    /// The driver reported a receive failure other than an empty queue.
    ReceiveFailed,
    /// A blocking receive was woken by a shutdown request.
    Cancelled,
    /// The wait on the session's events failed at the operating system.
    WaitFailed,
}

} // verus!
