//! What the session layer exchanges with the driver and the operating system.

use vstd::prelude::*;

verus! {

/// How many times a blocking receive polls the driver before it waits.
pub const FAST_POLL_ATTEMPTS: u8 = 5;

/// The last-error code with which the driver reports an empty receive queue.
pub const ERROR_NO_MORE_ITEMS: u32 = 259;

/// The wait result for the first handle handed to the wait; the handle after
/// it reports as this value plus one.
pub const WAIT_OBJECT_0: u32 = 0;

/// The wait result that reports a failed wait.
pub const WAIT_FAILED: u32 = 0xFFFF_FFFF;

/// A call that the caller owes the driver or the operating system. None of
/// them returns anything that the session layer reads.
#[derive(Clone, Copy, Debug, PartialEq, Eq, Structural)]
pub enum DriverCall {
    /// Hand the buffer at `packet` to the driver for transmission.
    SendPacket { session: usize, packet: usize },
    /// Give the received buffer at `packet` back to the driver.
    ReleaseReceivePacket { session: usize, packet: usize },
    /// Surrender the session handle to the driver.
    EndSession { session: usize },
    /// Signal the event `event`.
    SetEvent { event: usize },
}

} // verus!
