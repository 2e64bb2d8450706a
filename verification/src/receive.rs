//! Blocking receive with cancellation, as a machine that the caller drives.
//!
//! A blocking receive polls the driver a few times in a row, and only when
//! every poll came back empty does it wait on the session's two events. The
//! polls and the wait are the caller's part: a phase says which request is
//! due, the caller makes it and reports what came back as an event, and
//! `Session::receive_blocking` answers with the next phase or with the
//! outcome of the receive.

use crate::driver::{ERROR_NO_MORE_ITEMS, FAST_POLL_ATTEMPTS, WAIT_FAILED, WAIT_OBJECT_0};
use crate::error::Error;
use crate::packet::{packet_result_view, Kind, Packet, PacketView};
use crate::session::{Session, SessionView};
use vstd::prelude::*;

verus! {

/// The request that a blocking receive is waiting on.
#[derive(Clone, Copy, Debug, PartialEq, Eq, Structural)]
pub enum ReceivePhase {
    /// Poll the driver once, without waiting. `attempts` polls of this round
    /// came back empty so far.
    Polling { attempts: u8 },
    /// Name the session's read event: the one that `Session::read_event`
    /// has, or else what the driver gives.
    NeedReadEvent,
    /// Wait without a timeout until one of the two events is signalled, with
    /// `read_event` as the first handle and `shutdown_event` as the second.
    Waiting { read_event: usize, shutdown_event: usize },
}

/// What came back from the request of a phase.
#[derive(Clone, Copy, Debug, PartialEq, Eq, Structural)]
pub enum ReceiveEvent {
    /// The driver answered a poll with `region` and `size`; `last_error` is
    /// the last-error code, which counts only when `region` is null.
    Polled { region: usize, size: u32, last_error: u32 },
    /// The read event was named.
    ReadEvent { handle: usize },
    /// The wait returned `code`.
    Woke { code: u32 },
}

/// How a blocking receive goes on after an event.
#[derive(Debug)]
pub enum ReceiveStep<'a> {
    /// The receive goes on with this phase.
    Next(ReceivePhase),
    /// The receive is over.
    Done(Result<Packet<'a>, Error>),
}

/// The mathematical content of a `ReceiveStep`.
pub enum StepView {
    Next(ReceivePhase),
    Done(Result<PacketView, Error>),
}

impl<'a> View for ReceiveStep<'a> {
    type V = StepView;

    open spec fn view(&self) -> StepView {
        match *self {
            ReceiveStep::Next(phase) => StepView::Next(phase),
            ReceiveStep::Done(outcome) => StepView::Done(packet_result_view(outcome)),
        }
    }
}

impl ReceivePhase {
    /// The phase in which every blocking receive starts, and to which it
    /// returns after each wait: a fresh round of polls.
    pub open spec fn first() -> ReceivePhase {
        ReceivePhase::Polling { attempts: 0 }
    }

    /// The phase in which every blocking receive starts.
    pub fn start() -> (phase: ReceivePhase)
        ensures
            phase == ReceivePhase::first(),
    {
        ReceivePhase::Polling { attempts: 0 }
    }
}

/// The phase that follows an empty poll when `attempts` polls of the round
/// were empty before it: another poll, until the round is used up.
pub open spec fn after_empty_poll(attempts: u8) -> ReceivePhase {
    if attempts >= FAST_POLL_ATTEMPTS - 1 {
        ReceivePhase::NeedReadEvent
    } else {
        ReceivePhase::Polling { attempts: (attempts + 1) as u8 }
    }
}

/// How a blocking receive goes on when its wait returned `code`. A failed
/// wait and a signalled shutdown event end it; a signalled read event, and
/// any other code, send it back to polling.
pub open spec fn after_wait(code: u32) -> StepView {
    if code == WAIT_FAILED {
        StepView::Done(Err(Error::WaitFailed))
    } else if code == WAIT_OBJECT_0 + 1 {
        StepView::Done(Err(Error::Cancelled))
    } else {
        StepView::Next(ReceivePhase::first())
    }
}

impl SessionView {
    /// How a blocking receive on this session goes on from `phase` when
    /// `event` arrives. An event that does not answer the phase changes
    /// nothing: the request stands.
    pub open spec fn receive_step(self, phase: ReceivePhase, event: ReceiveEvent) -> StepView {
        match (phase, event) {
            (
                ReceivePhase::Polling { attempts },
                ReceiveEvent::Polled { region, size, last_error },
            ) => match self.polled(region, size, last_error) {
                Ok(Some(packet)) => StepView::Done(Ok(packet)),
                Ok(None) => StepView::Next(after_empty_poll(attempts)),
                Err(e) => StepView::Done(Err(e)),
            },
            (ReceivePhase::NeedReadEvent, ReceiveEvent::ReadEvent { .. }) => StepView::Next(
                ReceivePhase::Waiting {
                    read_event: self.read_event,
                    shutdown_event: self.shutdown_event,
                },
            ),
            (ReceivePhase::Waiting { .. }, ReceiveEvent::Woke { code }) => after_wait(code),
            _ => StepView::Next(phase),
        }
    }

    /// Where a blocking receive stands after the events of `events`, taken in
    /// order from `phase`. Events after the outcome are not looked at.
    pub open spec fn receive_run(self, phase: ReceivePhase, events: Seq<ReceiveEvent>) -> StepView
        decreases events.len(),
    {
        if events.len() == 0 {
            StepView::Next(phase)
        } else {
            match self.receive_step(phase, events[0]) {
                StepView::Next(next) => self.receive_run(next, events.drop_first()),
                done => done,
            }
        }
    }
}

impl Session {
    /// One step of a blocking receive: takes the phase that the receive is in
    /// and the event that answers it, and returns the phase to go on with or
    /// the outcome. Start from `ReceivePhase::start()`.
    ///
    /// A poll that brings a packet or a failure ends the receive at once. An
    /// empty poll is followed by another, up to `FAST_POLL_ATTEMPTS` in a
    /// row; then the receive waits on the read event and the shutdown event.
    /// A signalled shutdown event ends it with `Cancelled`, a failed wait
    /// with `WaitFailed`, and anything else starts a new round of polls.
    pub fn receive_blocking<'a>(&'a self, phase: ReceivePhase, event: ReceiveEvent) -> (step:
        ReceiveStep<'a>)
        ensures
            step@ == self@.receive_step(phase, event),
    {
        match phase {
            ReceivePhase::Polling { attempts } => match event {
                ReceiveEvent::Polled { region, size, last_error } => {
                    match self.try_receive(region, size, last_error) {
                        Err(e) => ReceiveStep::Done(Err(e)),
                        Ok(Some(packet)) => ReceiveStep::Done(Ok(packet)),
                        Ok(None) => if attempts >= FAST_POLL_ATTEMPTS - 1 {
                            ReceiveStep::Next(ReceivePhase::NeedReadEvent)
                        } else {
                            ReceiveStep::Next(ReceivePhase::Polling { attempts: attempts + 1 })
                        },
                    }
                },
                _ => ReceiveStep::Next(phase),
            },
            ReceivePhase::NeedReadEvent => match event {
                ReceiveEvent::ReadEvent { handle } => match self.get_read_wait_event(handle) {
                    Ok(read_event) => ReceiveStep::Next(
                        ReceivePhase::Waiting { read_event, shutdown_event: self.shutdown_event() },
                    ),
                    Err(e) => ReceiveStep::Done(Err(e)),
                },
                _ => ReceiveStep::Next(phase),
            },
            ReceivePhase::Waiting { .. } => match event {
                ReceiveEvent::Woke { code } => {
                    if code == WAIT_FAILED {
                        ReceiveStep::Done(Err(Error::WaitFailed))
                    } else if code == WAIT_OBJECT_0 + 1 {
                        ReceiveStep::Done(Err(Error::Cancelled))
                    } else {
                        ReceiveStep::Next(ReceivePhase::start())
                    }
                },
                _ => ReceiveStep::Next(phase),
            },
        }
    }
}

/// A poll that found the receive queue empty.
pub open spec fn is_empty_poll(event: ReceiveEvent) -> bool {
    event matches ReceiveEvent::Polled { region, last_error, .. } && region == 0 && last_error
        == ERROR_NO_MORE_ITEMS
}

/// Every event of `events` is a poll that found the queue empty.
pub open spec fn all_empty_polls(events: Seq<ReceiveEvent>) -> bool {
    forall|i: int| 0 <= i < events.len() ==> is_empty_poll(#[trigger] events[i])
}

/// How many empty polls end a round in which `attempts` polls were empty
/// already.
pub open spec fn polls_left(attempts: u8) -> nat {
    if attempts < FAST_POLL_ATTEMPTS - 1 {
        (FAST_POLL_ATTEMPTS - attempts) as nat
    } else {
        1
    }
}

/// The events that take a receive from `phase` to its wait while nothing
/// arrives: the empty polls `polls` that use up the round, then the read
/// event `handle`.
pub open spec fn quiet_path(phase: ReceivePhase, polls: Seq<ReceiveEvent>, handle: usize) -> Seq<
    ReceiveEvent,
> {
    match phase {
        ReceivePhase::Polling { .. } => polls + seq![ReceiveEvent::ReadEvent { handle }],
        ReceivePhase::NeedReadEvent => seq![ReceiveEvent::ReadEvent { handle }],
        ReceivePhase::Waiting { .. } => Seq::empty(),
    }
}

/// `polls` are exactly the empty polls that `phase` still has to make before
/// the wait.
pub open spec fn uses_up_round(phase: ReceivePhase, polls: Seq<ReceiveEvent>) -> bool {
    phase matches ReceivePhase::Polling { attempts } ==> all_empty_polls(polls) && polls.len()
        == polls_left(attempts)
}

/// Whether `event` is one that ends a receive with the failure `error`.
pub open spec fn causes(event: ReceiveEvent, error: Error) -> bool {
    match error {
        Error::AllocationFailed => false,
        Error::ReceiveFailed => event matches ReceiveEvent::Polled { region, last_error, .. }
            && region == 0 && last_error != ERROR_NO_MORE_ITEMS,
        Error::Cancelled => event == (ReceiveEvent::Woke { code: (WAIT_OBJECT_0 + 1) as u32 }),
        Error::WaitFailed => event == (ReceiveEvent::Woke { code: WAIT_FAILED }),
    }
}

/// Running a receive over `first` and then over `rest` is running it over
/// both in one go, and an outcome reached within `first` stands.
pub proof fn lemma_run_concat(
    s: SessionView,
    phase: ReceivePhase,
    first: Seq<ReceiveEvent>,
    rest: Seq<ReceiveEvent>,
)
    ensures
        s.receive_run(phase, first + rest) == match s.receive_run(phase, first) {
            StepView::Next(next) => s.receive_run(next, rest),
            done => done,
        },
    decreases first.len(),
{
    if first.len() == 0 {
        assert(first + rest =~= rest);
    } else {
        assert((first + rest)[0] == first[0]);
        assert((first + rest).drop_first() =~= first.drop_first() + rest);
        match s.receive_step(phase, first[0]) {
            StepView::Next(next) => lemma_run_concat(s, next, first.drop_first(), rest),
            _ => {},
        }
    }
}

/// The fast-poll round is bounded: empty polls keep a receive polling only
/// until the round is used up, and the poll that uses it up sends the
/// receive on to its wait.
pub proof fn lemma_empty_polls(s: SessionView, attempts: u8, polls: Seq<ReceiveEvent>)
    requires
        all_empty_polls(polls),
        polls.len() <= polls_left(attempts),
    ensures
        s.receive_run(ReceivePhase::Polling { attempts }, polls) == StepView::Next(
            if polls.len() == polls_left(attempts) {
                ReceivePhase::NeedReadEvent
            } else {
                ReceivePhase::Polling { attempts: (attempts + polls.len()) as u8 }
            },
        ),
    decreases polls.len(),
{
    if polls.len() > 0 {
        let rest = polls.drop_first();
        assert(is_empty_poll(polls[0]));
        assert forall|i: int| 0 <= i < rest.len() implies is_empty_poll(#[trigger] rest[i]) by {
            assert(rest[i] == polls[i + 1]);
        }
        if attempts < FAST_POLL_ATTEMPTS - 1 {
            lemma_empty_polls(s, (attempts + 1) as u8, rest);
        } else {
            assert(rest.len() == 0);
            assert(s.receive_run(ReceivePhase::NeedReadEvent, rest) == StepView::Next(
                ReceivePhase::NeedReadEvent,
            ));
        }
    }
}

/// A packet that arrives within the fast-poll round is returned at once:
/// after fewer empty polls than the round has left, a poll that brings a
/// region ends the receive with that region as a received packet. No wait
/// is made, so none can fail.
pub proof fn lemma_packet_after_empty_polls(
    s: SessionView,
    attempts: u8,
    polls: Seq<ReceiveEvent>,
    region: usize,
    size: u32,
    last_error: u32,
)
    requires
        all_empty_polls(polls),
        polls.len() < polls_left(attempts),
        region != 0,
    ensures
        s.receive_run(
            ReceivePhase::Polling { attempts },
            polls + seq![ReceiveEvent::Polled { region, size, last_error }],
        ) == StepView::Done(
            Ok(PacketView { region, len: size, kind: Kind::ReceivePacket, session: s }),
        ),
{
    let last = seq![ReceiveEvent::Polled { region, size, last_error }];
    lemma_empty_polls(s, attempts, polls);
    lemma_run_concat(s, ReceivePhase::Polling { attempts }, polls, last);
    let phase = ReceivePhase::Polling { attempts: (attempts + polls.len()) as u8 };
    assert(last.drop_first() =~= Seq::<ReceiveEvent>::empty());
    assert(s.receive_run(phase, last) == s.receive_step(phase, last[0]));
}

/// A receive that was woken by the read event returns the next packet: from
/// its wait, a signalled read event, then fewer than `FAST_POLL_ATTEMPTS`
/// empty polls, then a poll that brings a region end the receive with that
/// region as a received packet, and not with `WaitFailed`.
pub proof fn lemma_packet_after_wake(
    s: SessionView,
    read_event: usize,
    shutdown_event: usize,
    polls: Seq<ReceiveEvent>,
    region: usize,
    size: u32,
    last_error: u32,
)
    requires
        all_empty_polls(polls),
        polls.len() < FAST_POLL_ATTEMPTS,
        region != 0,
    ensures
        s.receive_run(
            ReceivePhase::Waiting { read_event, shutdown_event },
            seq![ReceiveEvent::Woke { code: WAIT_OBJECT_0 }] + (polls
                + seq![ReceiveEvent::Polled { region, size, last_error }]),
        ) == StepView::Done(
            Ok(PacketView { region, len: size, kind: Kind::ReceivePacket, session: s }),
        ),
{
    let wake = seq![ReceiveEvent::Woke { code: WAIT_OBJECT_0 }];
    let rest = polls + seq![ReceiveEvent::Polled { region, size, last_error }];
    let waiting = ReceivePhase::Waiting { read_event, shutdown_event };
    lemma_packet_after_empty_polls(s, 0, polls, region, size, last_error);
    lemma_run_concat(s, waiting, wake, rest);
    assert(wake.drop_first() =~= Seq::<ReceiveEvent>::empty());
    assert(s.receive_run(ReceivePhase::first(), wake.drop_first()) == StepView::Next(
        ReceivePhase::first(),
    ));
    assert(s.receive_run(waiting, wake) == StepView::Next(ReceivePhase::first()));
}

/// While nothing arrives, a receive reaches its wait from every phase, after
/// at most `FAST_POLL_ATTEMPTS` polls and the naming of the read event, and
/// it waits on the session's own two events.
pub proof fn lemma_quiet_receive_waits(
    s: SessionView,
    phase: ReceivePhase,
    polls: Seq<ReceiveEvent>,
    handle: usize,
)
    requires
        uses_up_round(phase, polls),
        !(phase is Waiting),
    ensures
        s.receive_run(phase, quiet_path(phase, polls, handle)) == StepView::Next(
            ReceivePhase::Waiting {
                read_event: s.read_event,
                shutdown_event: s.shutdown_event,
            },
        ),
        quiet_path(phase, polls, handle).len() <= FAST_POLL_ATTEMPTS + 1,
{
    let named = seq![ReceiveEvent::ReadEvent { handle }];
    let waiting = ReceivePhase::Waiting {
        read_event: s.read_event,
        shutdown_event: s.shutdown_event,
    };
    assert(named.drop_first() =~= Seq::<ReceiveEvent>::empty());
    assert(s.receive_run(waiting, named.drop_first()) == StepView::Next(waiting));
    assert(s.receive_run(ReceivePhase::NeedReadEvent, named) == StepView::Next(waiting));
    match phase {
        ReceivePhase::Polling { attempts } => {
            lemma_empty_polls(s, attempts, polls);
            lemma_run_concat(s, phase, polls, named);
        },
        _ => {},
    }
}

/// A shutdown cancels a receive within one wait: from every phase, if
/// nothing arrives before the wait and the wait reports the shutdown event,
/// the receive ends with `Cancelled`, after at most `FAST_POLL_ATTEMPTS`
/// polls, the naming of the read event and that one wait.
pub proof fn lemma_shutdown_cancels(
    s: SessionView,
    phase: ReceivePhase,
    polls: Seq<ReceiveEvent>,
    handle: usize,
)
    requires
        uses_up_round(phase, polls),
    ensures
        s.receive_run(
            phase,
            quiet_path(phase, polls, handle) + seq![
                ReceiveEvent::Woke { code: (WAIT_OBJECT_0 + 1) as u32 },
            ],
        ) == StepView::Done(Err(Error::Cancelled)),
        quiet_path(phase, polls, handle).len() <= FAST_POLL_ATTEMPTS + 1,
{
    let path = quiet_path(phase, polls, handle);
    let woke = seq![ReceiveEvent::Woke { code: (WAIT_OBJECT_0 + 1) as u32 }];
    assert(woke.drop_first() =~= Seq::<ReceiveEvent>::empty());
    if phase is Waiting {
        assert(path + woke =~= woke);
        assert(s.receive_run(phase, woke) == s.receive_step(phase, woke[0]));
    } else {
        let waiting = ReceivePhase::Waiting {
            read_event: s.read_event,
            shutdown_event: s.shutdown_event,
        };
        lemma_quiet_receive_waits(s, phase, polls, handle);
        lemma_run_concat(s, phase, path, woke);
        assert(s.receive_run(waiting, woke) == s.receive_step(waiting, woke[0]));
    }
}

/// No failure comes without its cause: a receive ends with `WaitFailed` only
/// on a failed wait, with `Cancelled` only on a wait that reports the
/// shutdown event, with `ReceiveFailed` only on a poll that failed for
/// another reason than an empty queue, and never with `AllocationFailed`.
pub proof fn lemma_failure_has_cause(
    s: SessionView,
    phase: ReceivePhase,
    events: Seq<ReceiveEvent>,
    error: Error,
)
    requires
        s.receive_run(phase, events) == StepView::Done(Err(error)),
    ensures
        exists|i: int| 0 <= i < events.len() && causes(#[trigger] events[i], error),
    decreases events.len(),
{
    if events.len() > 0 {
        match s.receive_step(phase, events[0]) {
            StepView::Next(next) => {
                let rest = events.drop_first();
                lemma_failure_has_cause(s, next, rest, error);
                let i = choose|i: int| 0 <= i < rest.len() && causes(#[trigger] rest[i], error);
                assert(events[i + 1] == rest[i]);
            },
            StepView::Done(_) => {
                assert(causes(events[0], error));
            },
        }
    }
}

/// No packet comes without its poll: a receive that ends with a packet ends
/// with a received packet of this session, over a region that is not null,
/// and one of the events is the poll that brought that region and length.
pub proof fn lemma_packet_has_poll(
    s: SessionView,
    phase: ReceivePhase,
    events: Seq<ReceiveEvent>,
    packet: PacketView,
)
    requires
        s.receive_run(phase, events) == StepView::Done(Ok(packet)),
    ensures
        packet.kind == Kind::ReceivePacket,
        packet.session == s,
        packet.region != 0,
        exists|i: int|
            0 <= i < events.len() && (#[trigger] events[i] matches ReceiveEvent::Polled {
                region,
                size,
                ..
            } && region == packet.region && size == packet.len),
    decreases events.len(),
{
    if events.len() > 0 {
        match s.receive_step(phase, events[0]) {
            StepView::Next(next) => {
                let rest = events.drop_first();
                lemma_packet_has_poll(s, next, rest, packet);
                let i = choose|i: int|
                    0 <= i < rest.len() && (#[trigger] rest[i] matches ReceiveEvent::Polled {
                        region,
                        size,
                        ..
                    } && region == packet.region && size == packet.len);
                assert(events[i + 1] == rest[i]);
            },
            StepView::Done(_) => {
                assert(events[0] matches ReceiveEvent::Polled { region, size, .. } && region
                    == packet.region && size == packet.len);
            },
        }
    }
}

} // verus!
