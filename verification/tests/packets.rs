use wintun_session::driver::{DriverCall, ERROR_NO_MORE_ITEMS};
use wintun_session::error::Error;
use wintun_session::packet::Kind;
use wintun_session::session::Session;

const SESSION: usize = 0x1000;
const SHUTDOWN: usize = 0x2000;

#[test]
fn allocated_packet_is_pending() {
    let session = Session::new(SESSION, SHUTDOWN);
    let packet = session.allocate_send_packet(100, 0x7000).unwrap();
    assert_eq!(packet.kind(), Kind::SendPacketPending);
    assert_eq!(packet.len(), 100);
    assert_eq!(packet.region(), Some((0x7000, 100)));
    assert_eq!(packet.session().handle(), SESSION);
}

#[test]
fn allocate_then_send_uses_the_buffer_up() {
    let session = Session::new(SESSION, SHUTDOWN);
    let mut packet = session.allocate_send_packet(100, 0x7000).unwrap();
    let call = session.send_packet(&mut packet);
    assert_eq!(call, DriverCall::SendPacket { session: SESSION, packet: 0x7000 });
    assert_eq!(packet.kind(), Kind::SendPacketSent);
    assert_eq!(packet.region(), None);
    assert_eq!(packet.len(), 100);
    assert_eq!(packet.discard(), None);
}

#[test]
fn allocate_then_send_for_every_size_at_the_edges() {
    let session = Session::new(SESSION, SHUTDOWN);
    for size in [0u16, 1, 100, 1500, u16::MAX - 1, u16::MAX] {
        let mut packet = session.allocate_send_packet(size, 0x9000).unwrap();
        assert_eq!(packet.len(), u32::from(size));
        let call = packet.submit();
        assert_eq!(call, DriverCall::SendPacket { session: SESSION, packet: 0x9000 });
        assert_eq!(packet.kind(), Kind::SendPacketSent);
        assert_eq!(packet.region(), None);
    }
}

#[test]
fn allocation_without_room_fails() {
    let session = Session::new(SESSION, SHUTDOWN);
    let r = session.allocate_send_packet(100, 0);
    assert!(matches!(r, Err(Error::AllocationFailed)));
}

#[test]
fn send_routes_through_the_allocating_session() {
    let first = Session::new(0x10, SHUTDOWN);
    let second = Session::new(0x20, SHUTDOWN);
    let mut packet = first.allocate_send_packet(8, 0x7000).unwrap();
    let call = second.send_packet(&mut packet);
    assert_eq!(call, DriverCall::SendPacket { session: 0x10, packet: 0x7000 });
}

#[test]
fn try_receive_with_data_gives_a_received_packet() {
    let session = Session::new(SESSION, SHUTDOWN);
    let packet = session.try_receive(0x8000, 60, 0).unwrap().unwrap();
    assert_eq!(packet.kind(), Kind::ReceivePacket);
    assert_eq!(packet.len(), 60);
    assert_eq!(packet.region(), Some((0x8000, 60)));
    assert_eq!(packet.session().handle(), SESSION);
}

#[test]
fn try_receive_ignores_the_last_error_when_data_came() {
    let session = Session::new(SESSION, SHUTDOWN);
    let packet = session.try_receive(0x8000, 60, ERROR_NO_MORE_ITEMS).unwrap();
    assert!(packet.is_some());
    let packet = session.try_receive(0x8000, 60, 5).unwrap();
    assert!(packet.is_some());
}

#[test]
fn try_receive_on_an_empty_queue_is_empty() {
    let session = Session::new(SESSION, SHUTDOWN);
    let r = session.try_receive(0, 0, ERROR_NO_MORE_ITEMS);
    assert!(matches!(r, Ok(None)));
    let r = session.try_receive(0, 77, 259);
    assert!(matches!(r, Ok(None)));
}

#[test]
fn try_receive_on_an_idle_session_a_thousand_times() {
    let session = Session::new(SESSION, SHUTDOWN);
    let mut outstanding = 0;
    for _ in 0..1000 {
        match session.try_receive(0, 0, ERROR_NO_MORE_ITEMS) {
            Ok(None) => {}
            Ok(Some(_)) => outstanding += 1,
            Err(e) => panic!("idle poll failed: {:?}", e),
        }
    }
    assert_eq!(outstanding, 0);
}

#[test]
fn try_receive_with_another_error_fails() {
    let session = Session::new(SESSION, SHUTDOWN);
    for code in [0u32, 5, 38, 258, 260, u32::MAX] {
        let r = session.try_receive(0, 0, code);
        assert!(matches!(r, Err(Error::ReceiveFailed)));
    }
}

#[test]
fn release_gives_the_region_back() {
    let session = Session::new(SESSION, SHUTDOWN);
    let packet = session.try_receive(0x8000, 60, 0).unwrap().unwrap();
    let call = packet.release();
    assert_eq!(call, DriverCall::ReleaseReceivePacket { session: SESSION, packet: 0x8000 });
}

#[test]
fn discard_releases_only_received_packets() {
    let session = Session::new(SESSION, SHUTDOWN);
    let received = session.try_receive(0x8000, 60, 0).unwrap().unwrap();
    assert_eq!(
        received.discard(),
        Some(DriverCall::ReleaseReceivePacket { session: SESSION, packet: 0x8000 })
    );
    let pending = session.allocate_send_packet(10, 0x7000).unwrap();
    assert_eq!(pending.discard(), None);
    let mut sent = session.allocate_send_packet(10, 0x7000).unwrap();
    sent.submit();
    assert_eq!(sent.discard(), None);
}

#[test]
fn read_event_is_fetched_once() {
    let session = Session::new(SESSION, SHUTDOWN);
    assert_eq!(session.read_event(), None);
    assert_eq!(session.get_read_wait_event(0x55).unwrap(), 0x55);
    assert_eq!(session.read_event(), Some(0x55));
    assert_eq!(session.get_read_wait_event(0x66).unwrap(), 0x55);
    assert_eq!(session.get_read_wait_event(0).unwrap(), 0x55);
    assert_eq!(session.read_event(), Some(0x55));
}

#[test]
fn read_events_of_two_sessions_are_apart() {
    let first = Session::new(0x10, SHUTDOWN);
    let second = Session::new(0x20, SHUTDOWN);
    assert_eq!(first.get_read_wait_event(0x55).unwrap(), 0x55);
    assert_eq!(second.read_event(), None);
    assert_eq!(second.get_read_wait_event(0x66).unwrap(), 0x66);
    assert_eq!(first.read_event(), Some(0x55));
}

#[test]
fn shutdown_signals_the_shutdown_event_every_time() {
    let session = Session::new(SESSION, SHUTDOWN);
    assert_eq!(session.shutdown_event(), SHUTDOWN);
    assert_eq!(session.shutdown(), DriverCall::SetEvent { event: SHUTDOWN });
    assert_eq!(session.shutdown(), DriverCall::SetEvent { event: SHUTDOWN });
}

#[test]
fn end_surrenders_the_handle() {
    let session = Session::new(SESSION, SHUTDOWN);
    assert_eq!(session.handle(), SESSION);
    assert_eq!(session.end(), DriverCall::EndSession { session: SESSION });
}
