//! Sessions: the handle to one active driver connection.

use crate::driver::{DriverCall, ERROR_NO_MORE_ITEMS};
use crate::error::Error;
use crate::once::{cell_get, cell_get_or_init, cell_new, settled};
use crate::packet::{packet_result_view, poll_result_view, Kind, Packet, PacketView};
use once_cell::sync::OnceCell;
use vstd::prelude::*;

verus! {

/// The mathematical content of a session.
pub struct SessionView {
    /// The driver's handle to the session.
    pub handle: usize,
    /// The event that the driver signals when a packet can be received: the
    /// one value that the session's cache holds from its first filling on.
    pub read_event: usize,
    /// The event that a shutdown request signals.
    pub shutdown_event: usize,
}

impl SessionView {
    /// What an allocation yields when the driver returned `region` for a
    /// request of `size` bytes.
    pub open spec fn allocated(self, size: u16, region: usize) -> Result<PacketView, Error> {
        if region == 0 {
            Err(Error::AllocationFailed)
        } else {
            Ok(
                PacketView {
                    region,
                    len: size as u32,
                    kind: Kind::SendPacketPending,
                    session: self,
                },
            )
        }
    }

    /// What one poll yields when the driver returned `region` and `size`, and
    /// `last_error` was the last-error code after a null `region`.
    pub open spec fn polled(self, region: usize, size: u32, last_error: u32) -> Result<
        Option<PacketView>,
        Error,
    > {
        if region != 0 {
            Ok(Some(PacketView { region, len: size, kind: Kind::ReceivePacket, session: self }))
        } else if last_error == ERROR_NO_MORE_ITEMS {
            Ok(None)
        } else {
            Err(Error::ReceiveFailed)
        }
    }
}

/// One active connection to the driver.
#[derive(Debug)]
pub struct Session {
    /// The session handle given out by the driver.
    session: usize,
    /// The read event, fetched from the driver at most once.
    read_event: OnceCell<usize>,
    /// The event that `shutdown` signals to end blocking receives.
    shutdown_event: usize,
}

impl View for Session {
    type V = SessionView;

    closed spec fn view(&self) -> SessionView {
        SessionView {
            handle: self.session,
            read_event: settled(self.read_event),
            shutdown_event: self.shutdown_event,
        }
    }
}

impl Session {
    /// A session over the driver handle `session`, with `shutdown_event` as
    /// the event of its own that cancels blocking receives. The read event is
    /// not fetched yet.
    pub fn new(session: usize, shutdown_event: usize) -> (s: Session)
        ensures
            s@.handle == session,
            s@.shutdown_event == shutdown_event,
    {
        Session { session, read_event: cell_new(), shutdown_event }
    }

    /// The driver's handle to the session.
    pub fn handle(&self) -> (handle: usize)
        ensures
            handle == self@.handle,
    {
        self.session
    }

    /// The event that `shutdown` signals.
    pub fn shutdown_event(&self) -> (event: usize)
        ensures
            event == self@.shutdown_event,
    {
        self.shutdown_event
    }

    /// Turns the driver's answer to an allocation of `size` bytes into a
    /// pending send buffer. A null `region` means that the driver has no room.
    pub fn allocate_send_packet<'a>(&'a self, size: u16, region: usize) -> (r: Result<
        Packet<'a>,
        Error,
    >)
        ensures
            packet_result_view(r) == self@.allocated(size, region),
    {
        if region == 0 {
            Err(Error::AllocationFailed)
        } else {
            Ok(Packet::pending_send(self, region, size))
        }
    }

    /// Submits a pending send buffer and returns the call that transmits it.
    pub fn send_packet(&self, packet: &mut Packet<'_>) -> (call: DriverCall)
        requires
            old(packet)@.can_submit(),
        ensures
            final(packet)@ == old(packet)@.submitted(),
            call == old(packet)@.send_call(),
    {
        packet.submit()
    }

    /// Turns the driver's answer to one receive poll into a received buffer,
    /// the empty result, or a failure. `last_error` counts only when `region`
    /// is null.
    pub fn try_receive<'a>(&'a self, region: usize, size: u32, last_error: u32) -> (r: Result<
        Option<Packet<'a>>,
        Error,
    >)
        ensures
            poll_result_view(r) == self@.polled(region, size, last_error),
    {
        if region != 0 {
            Ok(Some(Packet::received(self, region, size)))
        } else if last_error == ERROR_NO_MORE_ITEMS {
            Ok(None)
        } else {
            Err(Error::ReceiveFailed)
        }
    }

    /// The read event if the session has fetched it already.
    pub fn read_event(&self) -> (event: Option<usize>)
        ensures
            event matches Some(h) ==> h == self@.read_event,
    {
        cell_get(&self.read_event)
    }

    /// The session's read event. `fetched` is what the driver names as the
    /// read event now; the session keeps the first value it was ever given
    /// and returns that one on every call.
    pub fn get_read_wait_event(&self, fetched: usize) -> (r: Result<usize, Error>)
        ensures
            r == Ok::<usize, Error>(self@.read_event),
    {
        Ok(cell_get_or_init(&self.read_event, fetched))
    }

    /// The call that cancels every blocking receive on this session, running
    /// or yet to start. It may be made any number of times.
    pub fn shutdown(&self) -> (call: DriverCall)
        ensures
            call == (DriverCall::SetEvent { event: self@.shutdown_event }),
    {
        DriverCall::SetEvent { event: self.shutdown_event }
    }

    /// Ends the session: it is consumed, so that nothing can use the handle
    /// afterwards, and the returned call surrenders the handle to the driver.
    pub fn end(self) -> (call: DriverCall)
        ensures
            call == (DriverCall::EndSession { session: self@.handle }),
    {
        DriverCall::EndSession { session: self.session }
    }
}

/// Allocating and then submitting succeeds and uses the buffer up: for every
/// size, when the driver has room, the allocation yields a pending buffer of
/// that size over the region that the driver named, submit accepts it, and
/// the submitted buffer is accepted by no further operation.
pub proof fn lemma_allocate_then_submit(s: SessionView, size: u16, region: usize)
    requires
        region != 0,
    ensures
        s.allocated(size, region) matches Ok(p) && p.can_submit() && p.region == region && p.len
            == size && p.session == s && p.send_call() == (DriverCall::SendPacket {
            session: s.handle,
            packet: region,
        }) && !p.submitted().can_submit() && !p.submitted().can_release()
            && !p.submitted().accessible(),
{
}

/// A poll of an empty queue is no failure: a null region together with the
/// empty-queue code gives the empty result, whatever size came with it.
pub proof fn lemma_empty_queue_is_no_failure(s: SessionView, size: u32)
    ensures
        s.polled(0, size, ERROR_NO_MORE_ITEMS) == Ok::<Option<PacketView>, Error>(None),
{
}

} // verus!
