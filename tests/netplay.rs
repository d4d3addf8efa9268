use netplay::codec::{session_address, text_from_bytes, NetplayError};
use netplay::exts::MutexNetplayExtensions;
use netplay::peer_msg::{PeerId, PeerMessage, PeerMessageType, PeerState};
use netplay::pump::{collect_messages, greeting_packet, greetings_for, outbound_packet, plan_send};
use netplay::safe_bytes::SafeBytes;
use netplay::session::SessionSlot;
use netplay::supervisor::{SupervisorEvent, SupervisorState, HEARTBEAT_MS};

fn peer(n: u128) -> PeerId {
    PeerId { uuid: n }
}

#[test]
fn classify_exact_tags() {
    assert_eq!(PeerMessageType::classify("Ping"), PeerMessageType::Ping);
    assert_eq!(PeerMessageType::classify("Pong"), PeerMessageType::Pong);
    assert_eq!(PeerMessageType::classify("Greetings"), PeerMessageType::Greetings);
    assert_eq!(PeerMessageType::classify("RoundFinished"), PeerMessageType::RoundFinished);
}

#[test]
fn classify_archer_anywhere() {
    assert_eq!(PeerMessageType::classify("Archer"), PeerMessageType::Archer);
    assert_eq!(PeerMessageType::classify("moveArcher:3,4"), PeerMessageType::Archer);
    assert_eq!(PeerMessageType::classify("PingArcher"), PeerMessageType::Archer);
    assert_eq!(PeerMessageType::classify("Arche"), PeerMessageType::Unknown);
}

#[test]
fn classify_unknown_text_is_not_fatal() {
    assert_eq!(PeerMessageType::classify(""), PeerMessageType::Unknown);
    assert_eq!(PeerMessageType::classify("ping"), PeerMessageType::Unknown);
    assert_eq!(PeerMessageType::classify("Ping "), PeerMessageType::Unknown);
    assert_eq!(PeerMessageType::classify("héllo wörld"), PeerMessageType::Unknown);
}

#[test]
fn message_from_text_classifies() {
    let m = PeerMessage::from_text(peer(7), String::from("Pong"));
    assert_eq!(m.peer_id(), peer(7));
    assert_eq!(m.message(), "Pong");
    assert_eq!(m.peer_message_type(), PeerMessageType::Pong);
    let n = PeerMessage::new(peer(8), String::from("x"), PeerMessageType::Ping);
    assert_eq!(n.peer_message_type(), PeerMessageType::Ping);
}

#[test]
fn injected_packets_round_trip_in_order() {
    let packets = vec![
        (peer(1), b"Ping".to_vec()),
        (peer(2), b"the Archer moves".to_vec()),
        (peer(1), b"RoundFinished".to_vec()),
        (peer(3), vec![0xff, b'A']),
        (peer(2), b"whatever".to_vec()),
    ];
    let msgs = collect_messages(packets);
    assert_eq!(msgs.len(), 5);
    let ids: Vec<PeerId> = msgs.iter().map(|m| m.peer_id()).collect();
    assert_eq!(ids, vec![peer(1), peer(2), peer(1), peer(3), peer(2)]);
    assert_eq!(msgs[0].message(), "Ping");
    assert_eq!(msgs[0].peer_message_type(), PeerMessageType::Ping);
    assert_eq!(msgs[1].message(), "the Archer moves");
    assert_eq!(msgs[1].peer_message_type(), PeerMessageType::Archer);
    assert_eq!(msgs[2].peer_message_type(), PeerMessageType::RoundFinished);
    assert_eq!(msgs[3].message(), "\u{FFFD}A");
    assert_eq!(msgs[3].peer_message_type(), PeerMessageType::Unknown);
    assert_eq!(msgs[4].peer_message_type(), PeerMessageType::Unknown);
}

#[test]
fn empty_batch_gives_no_messages() {
    assert!(collect_messages(Vec::new()).is_empty());
}

#[test]
fn greeting_packet_is_greetings_text() {
    assert_eq!(greeting_packet(), b"Greetings".to_vec());
}

#[test]
fn one_greeting_per_connected_peer() {
    let changes = vec![
        (peer(1), PeerState::Connected),
        (peer(2), PeerState::Disconnected),
        (peer(3), PeerState::Connected),
        (peer(1), PeerState::Disconnected),
    ];
    let sends = greetings_for(&changes);
    assert_eq!(
        sends,
        vec![(peer(1), b"Greetings".to_vec()), (peer(3), b"Greetings".to_vec())]
    );
    assert!(greetings_for(&Vec::new()).is_empty());
}

#[test]
fn send_without_session_is_noop() {
    assert_eq!(plan_send(false, "Ping", "not an id"), Ok(None));
    assert_eq!(plan_send(false, "Ping", "67e55044-10b1-426f-9247-bb680e5fe0c8"), Ok(None));
}

#[test]
fn send_to_malformed_peer_is_error() {
    assert_eq!(plan_send(true, "Ping", "not an id"), Err(NetplayError::MalformedPeerId));
    assert_eq!(plan_send(true, "Ping", ""), Err(NetplayError::MalformedPeerId));
}

#[test]
fn send_to_well_formed_peer() {
    let r = plan_send(true, "Pong é", "67e55044-10b1-426f-9247-bb680e5fe0c8");
    assert_eq!(
        r,
        Ok(Some((peer(0x67e55044_10b1_426f_9247_bb680e5fe0c8), "Pong é".as_bytes().to_vec())))
    );
}

#[test]
fn outbound_packet_from_parsed_id() {
    assert_eq!(outbound_packet("Ping", Some(5)), Ok((peer(5), b"Ping".to_vec())));
    assert_eq!(outbound_packet("Ping", None), Err(NetplayError::MalformedPeerId));
}

#[test]
fn text_parameters_must_be_utf8() {
    assert_eq!(text_from_bytes(b"hello".to_vec()), Ok(String::from("hello")));
    assert_eq!(text_from_bytes(vec![0xc3, 0x28]), Err(NetplayError::InvalidUtf8));
    assert_eq!(text_from_bytes(Vec::new()), Ok(String::new()));
}

#[test]
fn session_address_rules() {
    assert_eq!(session_address(b"ws://localhost:3536/room".to_vec()), Ok(String::from("ws://localhost:3536/room")));
    assert_eq!(session_address(Vec::new()), Err(NetplayError::EmptyAddress));
    assert_eq!(session_address(vec![0xff]), Err(NetplayError::InvalidUtf8));
}

#[test]
fn slot_before_start_is_empty() {
    let mut slot: SessionSlot<u32> = SessionSlot::new();
    assert!(!slot.is_connected());
    assert_eq!(slot.take(), None);
    assert!(!slot.is_connected());
}

#[test]
fn slot_take_is_exclusive() {
    let mut slot: SessionSlot<u32> = SessionSlot::new();
    assert_eq!(slot.install(9), None);
    assert_eq!(slot.take(), Some(9));
    assert_eq!(slot.take(), None);
    slot.put_back(9);
    assert!(slot.is_connected());
    assert_eq!(slot.take(), Some(9));
}

#[test]
fn start_replaces_running_session() {
    let mut slot: SessionSlot<u32> = SessionSlot::new();
    slot.install(1);
    assert_eq!(slot.install(2), Some(1));
    assert_eq!(slot.take(), Some(2));
}

#[test]
fn stop_then_poll_finds_nothing() {
    let mut slot: SessionSlot<u32> = SessionSlot::new();
    slot.install(4);
    slot.reset();
    assert_eq!(slot.take(), None);
    slot.reset();
    assert!(!slot.is_connected());
}

#[test]
fn poisoned_slot_starts_over() {
    let mut slot: SessionSlot<u32> = SessionSlot::new();
    slot.install(3);
    slot.ensure_not_poisoned(false);
    assert!(slot.is_connected());
    slot.ensure_not_poisoned(true);
    assert!(!slot.is_connected());
}

#[test]
fn empty_buffer_release_is_repeatable() {
    for _ in 0..3 {
        let b = SafeBytes::empty();
        assert!(b.is_empty());
        assert_eq!(b.size(), 0);
        b.release();
    }
}

#[test]
fn buffer_holds_its_bytes() {
    let b = SafeBytes::new(vec![1, 2, 3]);
    assert_eq!(b.size(), 3);
    assert!(!b.is_empty());
    assert_eq!(b.slice(), &[1u8, 2, 3][..]);
    assert_eq!(b.into_bytes(), vec![1, 2, 3]);
    SafeBytes::new(vec![4]).release();
}

#[test]
fn supervisor_lifecycle() {
    let s = SupervisorState::Idle.step(SupervisorEvent::Start);
    assert_eq!(s, SupervisorState::Connecting);
    let s = s.step(SupervisorEvent::Spawned);
    assert_eq!(s, SupervisorState::Running);
    assert!(!s.loop_done());
    let s = s.step(SupervisorEvent::StopSampled(None));
    assert_eq!(s, SupervisorState::Running);
    let s = s.step(SupervisorEvent::StopSampled(Some(false)));
    let s = s.step(SupervisorEvent::HeartbeatElapsed);
    assert_eq!(s, SupervisorState::Running);
    let s = s.step(SupervisorEvent::StopSampled(Some(true)));
    assert_eq!(s, SupervisorState::Stopped);
    assert!(s.loop_done());
    assert_eq!(s.step(SupervisorEvent::HeartbeatElapsed), SupervisorState::Stopped);
    assert_eq!(s.step(SupervisorEvent::Start), SupervisorState::Connecting);
}

#[test]
fn supervisor_ends_when_progress_completes() {
    let s = SupervisorState::Running.step(SupervisorEvent::ProgressCompleted);
    assert_eq!(s, SupervisorState::Stopped);
    assert_eq!(SupervisorState::Idle.step(SupervisorEvent::Spawned), SupervisorState::Idle);
    assert_eq!(HEARTBEAT_MS, 10);
}
