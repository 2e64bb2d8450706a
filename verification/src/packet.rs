//! Packet buffers and their lifecycle.
//!
//! A packet stands for one region of driver-owned memory during exactly one
//! send or one receive. It borrows the session that produced it, so it cannot
//! outlive that session.

use crate::driver::DriverCall;
use crate::error::Error;
use crate::session::{Session, SessionView};
use vstd::prelude::*;

verus! {

/// Where a packet stands in its lifecycle.
#[derive(Clone, Copy, Debug, PartialEq, Eq, Structural)]
pub enum Kind {
    /// Allocated for sending and not yet submitted.
    SendPacketPending,
    /// Submitted: the region belongs to the driver again.
    SendPacketSent,
    /// Received and not yet released.
    ReceivePacket,
}

/// The mathematical content of a packet.
pub struct PacketView {
    /// Address of the region; never zero.
    pub region: usize,
    /// Length of the region in bytes.
    pub len: u32,
    pub kind: Kind,
    /// The session that produced the packet.
    pub session: SessionView,
}

impl PacketView {
    /// Only a pending send buffer may be submitted.
    pub open spec fn can_submit(self) -> bool {
        self.kind == Kind::SendPacketPending
    }

    /// Only a received buffer may be released.
    pub open spec fn can_release(self) -> bool {
        self.kind == Kind::ReceivePacket
    }

    /// The region may be read and written until the buffer is submitted.
    pub open spec fn accessible(self) -> bool {
        self.kind != Kind::SendPacketSent
    }

    /// The packet after it has been submitted.
    pub open spec fn submitted(self) -> PacketView {
        PacketView { kind: Kind::SendPacketSent, ..self }
    }

    /// The call that submits the packet.
    pub open spec fn send_call(self) -> DriverCall {
        DriverCall::SendPacket { session: self.session.handle, packet: self.region }
    }

    /// The call that releases the packet.
    pub open spec fn release_call(self) -> DriverCall {
        DriverCall::ReleaseReceivePacket { session: self.session.handle, packet: self.region }
    }
}

/// One region of driver memory, lent for one send or one receive.
#[derive(Debug)]
pub struct Packet<'a> {
    region: usize,
    len: u32,
    kind: Kind,
    session: &'a Session,
}

impl<'a> View for Packet<'a> {
    type V = PacketView;

    closed spec fn view(&self) -> PacketView {
        PacketView {
            region: self.region,
            len: self.len,
            kind: self.kind,
            session: self.session@,
        }
    }
}

/// The views of an outcome that carries a packet.
pub open spec fn packet_result_view(r: Result<Packet<'_>, Error>) -> Result<PacketView, Error> {
    match r {
        Ok(p) => Ok(p@),
        Err(e) => Err(e),
    }
}

/// The views of an outcome that may carry a packet.
pub open spec fn poll_result_view(r: Result<Option<Packet<'_>>, Error>) -> Result<
    Option<PacketView>,
    Error,
> {
    match r {
        Ok(Some(p)) => Ok(Some(p@)),
        Ok(None) => Ok(None),
        Err(e) => Err(e),
    }
}

impl<'a> Packet<'a> {
    #[verifier::type_invariant]
    spec fn inv(self) -> bool {
        self.region != 0
    }

    /// Wraps a region that the driver allocated for sending.
    pub(crate) fn pending_send(session: &'a Session, region: usize, size: u16) -> (p: Packet<'a>)
        requires
            region != 0,
        ensures
            p@ == (PacketView {
                region,
                len: size as u32,
                kind: Kind::SendPacketPending,
                session: session@,
            }),
    {
        Packet { region, len: size as u32, kind: Kind::SendPacketPending, session }
    }

    /// Wraps a region that the driver handed out on a receive.
    pub(crate) fn received(session: &'a Session, region: usize, size: u32) -> (p: Packet<'a>)
        requires
            region != 0,
        ensures
            p@ == (PacketView { region, len: size, kind: Kind::ReceivePacket, session: session@ }),
    {
        Packet { region, len: size, kind: Kind::ReceivePacket, session }
    }

    /// The lifecycle state.
    pub fn kind(&self) -> (kind: Kind)
        ensures
            kind == self@.kind,
    {
        self.kind
    }

    /// The length of the region in bytes, also after the region went back to
    /// the driver.
    pub fn len(&self) -> (len: u32)
        ensures
            len == self@.len,
    {
        self.len
    }

    /// The session that produced the packet.
    pub fn session(&self) -> (session: &'a Session)
        ensures
            session@ == self@.session,
    {
        self.session
    }

    /// Address and length of the region while it may be accessed, and `None`
    /// once the packet has been submitted. The address is never zero.
    pub fn region(&self) -> (region: Option<(usize, u32)>)
        ensures
            region == if self@.accessible() {
                Some((self@.region, self@.len))
            } else {
                None
            },
            self@.region != 0,
    {
        proof {
            use_type_invariant(self);
        }
        match self.kind {
            Kind::SendPacketSent => None,
            _ => Some((self.region, self.len)),
        }
    }

    /// Submits a pending send buffer: the packet becomes sent, and the
    /// returned call hands its region to the driver through the session that
    /// allocated it.
    pub fn submit(&mut self) -> (call: DriverCall)
        requires
            old(self)@.can_submit(),
        ensures
            final(self)@ == old(self)@.submitted(),
            call == old(self)@.send_call(),
    {
        proof {
            use_type_invariant(&*self);
        }
        self.kind = Kind::SendPacketSent;
        DriverCall::SendPacket { session: self.session.handle(), packet: self.region }
    }

    /// Releases a received buffer: the packet is consumed, and the returned
    /// call gives its region back to the driver.
    pub fn release(self) -> (call: DriverCall)
        requires
            self@.can_release(),
        ensures
            call == self@.release_call(),
    {
        DriverCall::ReleaseReceivePacket { session: self.session.handle(), packet: self.region }
    }

    /// Ends the packet's life in whatever state it is in: a received buffer is
    /// released, any other needs no call.
    pub fn discard(self) -> (call: Option<DriverCall>)
        ensures
            call == if self@.can_release() {
                Some(self@.release_call())
            } else {
                None
            },
    {
        match self.kind {
            Kind::ReceivePacket => Some(self.release()),
            _ => None,
        }
    }
}

/// The lifecycle admits no second use: whatever state a packet is in, at most
/// one of submit and release accepts it, release accepts only a received
/// buffer, and a submitted packet is accepted by neither and has its region
/// out of reach. So no buffer can be submitted twice.
pub proof fn lemma_lifecycle_guards(p: PacketView)
    ensures
        !(p.can_submit() && p.can_release()),
        p.can_release() <==> p.kind == Kind::ReceivePacket,
        p.can_submit() <==> p.kind == Kind::SendPacketPending,
        !p.submitted().can_submit(),
        !p.submitted().can_release(),
        !p.submitted().accessible(),
{
}

} // verus!
