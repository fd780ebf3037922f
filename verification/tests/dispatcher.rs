use lora_ratchet::error::CoreError;
use lora_ratchet::error::HandshakeError;
use lora_ratchet::registry::SessionRegistry;
use lora_ratchet::server::dispatcher::Dispatcher;
use lora_ratchet::server::dispatcher::ServerAction;
use lora_ratchet::server::dispatcher::ServerEvent;
use lora_ratchet::server::dispatcher::ServerPhase;
use lora_ratchet::server::dispatcher::DEVADDR_DRAWS;
use lora_ratchet::server::dispatcher::RATCHET_DEVADDR_AT;
use lora_ratchet::server::dispatcher::RATCHET_MIN_LEN;
use lora_ratchet::server::keys::EdKeys;
use lora_ratchet::server::keys::StaticKeys;

fn keys() -> StaticKeys {
    StaticKeys {
        as_static_material: [0x22; 32],
        ed_keys: vec![EdKeys { kid: vec![0xA2], ed_static_material: [0xED; 32] }],
    }
}

fn idle() -> Dispatcher<u32, String> {
    Dispatcher::new(8)
}

fn draw_of(addresses: [[u8; 4]; 8]) -> [u8; 32] {
    let mut draw = [0u8; 32];
    for (k, a) in addresses.iter().enumerate() {
        draw[4 * k..4 * k + 4].copy_from_slice(a);
    }
    draw
}

fn handling_msg1() -> Dispatcher<u32, String> {
    let mut server = idle();
    server.step_with(ServerEvent::Received(vec![0, 0, 0, 0x11]), &keys(), Some([9; 32]));
    server
}

#[test]
fn a_new_dispatcher_is_idle_and_empty() {
    let server = idle();
    assert!(server.is_idle());
    assert_eq!(server.phase(), ServerPhase::Idle);
    assert_eq!(server.registry().len(), 0);
    assert_eq!(server.fcnt_down(), 0);
}

#[test]
fn an_empty_buffer_is_dropped() {
    let mut server = idle();
    assert_eq!(
        server.step_with(ServerEvent::Received(Vec::new()), &keys(), None),
        ServerAction::Drop(HandshakeError::MalformedEnvelope)
    );
    assert!(server.is_idle());
}

#[test]
fn an_unknown_message_type_is_dropped() {
    let mut server = idle();
    for mtype in [1u8, 3, 4, 6, 8, 9, 0xFF] {
        assert_eq!(
            server.step_with(ServerEvent::Received(vec![mtype; 30]), &keys(), Some([9; 32])),
            ServerAction::Drop(HandshakeError::UnexpectedMessage)
        );
        assert!(server.is_idle());
    }
}

#[test]
fn a_short_message_1_is_dropped() {
    let mut server = idle();
    assert_eq!(
        server.step_with(ServerEvent::Received(vec![0, 0]), &keys(), Some([9; 32])),
        ServerAction::Drop(HandshakeError::MalformedEnvelope)
    );
    assert!(server.is_idle());
}

#[test]
fn message_1_without_entropy_is_dropped() {
    let mut server = idle();
    assert_eq!(
        server.step_with(ServerEvent::Received(vec![0, 0, 0, 0x11]), &keys(), None),
        ServerAction::Drop(HandshakeError::NoEntropy)
    );
    assert!(server.is_idle());
}

#[test]
fn step_draws_its_own_entropy_for_message_1() {
    let mut server = idle();
    let first = match server.step(ServerEvent::Received(vec![0, 0, 0, 0x11]), &keys()) {
        ServerAction::HandleMessage1 { payload, setup } => {
            assert_eq!(payload, vec![0x11]);
            setup
        }
        other => panic!("message 1 was not handed to the core: {:?}", other),
    };
    let mut other_server = idle();
    let second = match other_server.step(ServerEvent::Received(vec![0, 0, 0, 0x11]), &keys()) {
        ServerAction::HandleMessage1 { setup, .. } => setup,
        other => panic!("message 1 was not handed to the core: {:?}", other),
    };
    assert_ne!(first.ephemeral_secret, second.ephemeral_secret);
    assert_eq!(first.static_public, second.static_public);
    assert_ne!(first.static_public, first.static_secret);
}

#[test]
fn step_draws_its_own_addresses_for_message_2() {
    let mut server = handling_msg1();
    let frame = match server.step(ServerEvent::Message2 { message: vec![0x21], receiver: 1 }, &keys()) {
        ServerAction::Transmit(frame) => frame,
        other => panic!("message 2 was not sent: {:?}", other),
    };
    assert_eq!(frame.len(), 8);
    assert_eq!(&frame[..3], &[1, 0, 0]);
    let devaddr: [u8; 4] = [frame[3], frame[4], frame[5], frame[6]];
    assert!(server.registry().contains(&devaddr));
    assert_eq!(server.registry().len(), 1);
}

#[test]
fn the_first_free_address_of_the_draw_is_assigned() {
    let mut registry: SessionRegistry<u32, String> = SessionRegistry::new(8);
    registry.insert_pending([1, 1, 1, 1], 10).unwrap();
    registry.install_ratchet([2, 2, 2, 2], "r".to_string()).unwrap();
    let mut server = Dispatcher::with_registry(registry);
    server.step_with(ServerEvent::Received(vec![0, 0, 0, 0x11]), &keys(), Some([9; 32]));
    let draw = draw_of([
        [1, 1, 1, 1],
        [2, 2, 2, 2],
        [3, 3, 3, 3],
        [4, 4, 4, 4],
        [5, 5, 5, 5],
        [6, 6, 6, 6],
        [7, 7, 7, 7],
        [8, 8, 8, 8],
    ]);
    assert_eq!(
        server.step_with(
            ServerEvent::Message2 { message: vec![0x21], receiver: 30 },
            &keys(),
            Some(draw)
        ),
        ServerAction::Transmit(vec![1, 0, 0, 3, 3, 3, 3, 0x21])
    );
    let mut registry = server.into_registry();
    assert_eq!(registry.take_pending(&[3, 3, 3, 3]), Ok(30));
    assert_eq!(registry.take_pending(&[1, 1, 1, 1]), Ok(10));
}

#[test]
fn pick_devaddr_passes_over_taken_addresses() {
    let mut registry: SessionRegistry<u32, String> = SessionRegistry::new(8);
    registry.insert_pending([1, 1, 1, 1], 10).unwrap();
    let mut server = Dispatcher::with_registry(registry);
    let mut draw = [1u8; 32];
    draw[28..32].copy_from_slice(&[9, 9, 9, 9]);
    assert_eq!(DEVADDR_DRAWS, 8);
    assert_eq!(server.pick_devaddr(&draw), Some([9, 9, 9, 9]));
    assert_eq!(server.pick_devaddr(&[1u8; 32]), None);
    assert_eq!(server.pick_devaddr(&[7u8; 32]), Some([7, 7, 7, 7]));
}

#[test]
fn a_draw_of_taken_addresses_drops_the_handshake() {
    let mut registry: SessionRegistry<u32, String> = SessionRegistry::new(8);
    registry.insert_pending([1, 1, 1, 1], 10).unwrap();
    let mut server = Dispatcher::with_registry(registry);
    server.step_with(ServerEvent::Received(vec![0, 0, 0, 0x11]), &keys(), Some([9; 32]));
    assert_eq!(
        server.step_with(
            ServerEvent::Message2 { message: vec![0x21], receiver: 30 },
            &keys(),
            Some([1; 32])
        ),
        ServerAction::Drop(HandshakeError::DuplicateDevaddr)
    );
    assert!(server.is_idle());
    assert_eq!(server.registry().len(), 1);
    assert_eq!(server.fcnt_down(), 0);
}

#[test]
fn message_2_without_entropy_is_dropped() {
    let mut server = handling_msg1();
    assert_eq!(
        server.step_with(ServerEvent::Message2 { message: vec![0x21], receiver: 30 }, &keys(), None),
        ServerAction::Drop(HandshakeError::NoEntropy)
    );
    assert!(server.is_idle());
    assert_eq!(server.registry().len(), 0);
}

#[test]
fn assigned_addresses_never_collide() {
    let mut server: Dispatcher<u32, String> = Dispatcher::new(64);
    let mut assigned: Vec<[u8; 4]> = Vec::new();
    for device in 0u32..12 {
        server.step_with(ServerEvent::Received(vec![0, 0, 0, 0x11]), &keys(), Some([9; 32]));
        let mut draw = [0u8; 32];
        for k in 0..8 {
            draw[4 * k + 3] = ((device as usize / 2 + k) % 24) as u8;
        }
        match server.step_with(
            ServerEvent::Message2 { message: vec![0x21], receiver: device },
            &keys(),
            Some(draw),
        ) {
            ServerAction::Transmit(frame) => {
                let devaddr: [u8; 4] = [frame[3], frame[4], frame[5], frame[6]];
                assert!(!assigned.contains(&devaddr));
                assert!(server.registry().contains(&devaddr));
                assigned.push(devaddr);
            }
            other => panic!("no address for device {}: {:?}", device, other),
        }
    }
    assert_eq!(assigned.len(), 12);
    assert_eq!(server.registry().len(), 12);
}

#[test]
fn the_server_counter_goes_up_by_one_per_handshake_frame() {
    let mut server = idle();
    let mut counters: Vec<u8> = Vec::new();
    for device in 0u8..3 {
        server.step_with(ServerEvent::Received(vec![0, 0, 0, 0x11]), &keys(), Some([9; 32]));
        match server.step_with(
            ServerEvent::Message2 { message: vec![0x21], receiver: device as u32 },
            &keys(),
            Some([device + 1; 32]),
        ) {
            ServerAction::Transmit(frame) => counters.push(frame[2]),
            other => panic!("message 2 was not sent: {:?}", other),
        }
    }
    assert_eq!(counters, vec![0, 1, 2]);
    assert_eq!(server.fcnt_down(), 3);
}

#[test]
fn message_3_for_an_unknown_address_is_dropped() {
    let mut server = idle();
    assert_eq!(
        server.step_with(ServerEvent::Received(vec![2, 0, 1, 9, 9, 9, 9, 0x31]), &keys(), None),
        ServerAction::Drop(HandshakeError::UnknownDevaddr)
    );
    assert!(server.is_idle());
}

#[test]
fn message_3_for_an_established_session_is_dropped() {
    let mut registry: SessionRegistry<u32, String> = SessionRegistry::new(8);
    registry.install_ratchet([9, 9, 9, 9], "r".to_string()).unwrap();
    let mut server = Dispatcher::with_registry(registry);
    assert_eq!(
        server.step_with(ServerEvent::Received(vec![2, 0, 1, 9, 9, 9, 9, 0x31]), &keys(), None),
        ServerAction::Drop(HandshakeError::UnknownDevaddr)
    );
    let mut registry = server.into_registry();
    assert_eq!(registry.take_ratchet(&[9, 9, 9, 9]), Ok("r".to_string()));
}

#[test]
fn a_short_message_3_is_dropped() {
    let mut server = idle();
    assert_eq!(
        server.step_with(ServerEvent::Received(vec![2, 0, 1, 9, 9, 9]), &keys(), None),
        ServerAction::Drop(HandshakeError::MalformedEnvelope)
    );
}

#[test]
fn a_ratchet_frame_for_an_unknown_address_is_dropped() {
    let mut server = idle();
    assert_eq!(RATCHET_DEVADDR_AT, 14);
    assert_eq!(RATCHET_MIN_LEN, 18);
    assert_eq!(
        server.step_with(ServerEvent::Received(vec![5; 18]), &keys(), None),
        ServerAction::Drop(HandshakeError::UnknownDevaddr)
    );
    assert_eq!(
        server.step_with(ServerEvent::Received(vec![7; 18]), &keys(), None),
        ServerAction::Drop(HandshakeError::UnknownDevaddr)
    );
    assert!(server.is_idle());
}

#[test]
fn a_ratchet_frame_for_a_pending_handshake_is_dropped() {
    let mut registry: SessionRegistry<u32, String> = SessionRegistry::new(8);
    registry.insert_pending([5, 5, 5, 5], 1).unwrap();
    let mut server = Dispatcher::with_registry(registry);
    assert_eq!(
        server.step_with(ServerEvent::Received(vec![5; 18]), &keys(), None),
        ServerAction::Drop(HandshakeError::UnknownDevaddr)
    );
    let mut registry = server.into_registry();
    assert_eq!(registry.take_pending(&[5, 5, 5, 5]), Ok(1));
}

#[test]
fn a_short_ratchet_frame_is_dropped() {
    let mut registry: SessionRegistry<u32, String> = SessionRegistry::new(8);
    registry.install_ratchet([5, 5, 5, 5], "r".to_string()).unwrap();
    let mut server = Dispatcher::with_registry(registry);
    assert_eq!(
        server.step_with(ServerEvent::Received(vec![5; 17]), &keys(), None),
        ServerAction::Drop(HandshakeError::MalformedEnvelope)
    );
}

#[test]
fn the_ratchet_address_is_read_at_offset_14() {
    let mut registry: SessionRegistry<u32, String> = SessionRegistry::new(8);
    registry.install_ratchet([1, 2, 3, 4], "r".to_string()).unwrap();
    let mut server = Dispatcher::with_registry(registry);
    let mut frame = vec![7u8; 20];
    frame[3..7].copy_from_slice(&[9, 9, 9, 9]);
    frame[14..18].copy_from_slice(&[1, 2, 3, 4]);
    assert_eq!(
        server.step_with(ServerEvent::Received(frame.clone()), &keys(), None),
        ServerAction::Receive { ratchet: "r".to_string(), frame }
    );
    assert_eq!(server.phase(), ServerPhase::Ratcheting { devaddr: [1, 2, 3, 4] });
}

#[test]
fn own_fault_on_message_1_is_sent_to_the_peer() {
    let mut server = handling_msg1();
    assert_eq!(
        server.step_with(ServerEvent::CoreFault(CoreError::Own(vec![0xEE, 2])), &keys(), None),
        ServerAction::SendError(vec![0xEE, 2])
    );
    assert!(server.is_idle());
    assert_eq!(server.fcnt_down(), 0);
}

#[test]
fn peer_fault_is_dropped_without_a_reply() {
    let mut server = handling_msg1();
    assert_eq!(
        server.step_with(
            ServerEvent::CoreFault(CoreError::Peer("garbled".to_string())),
            &keys(),
            None
        ),
        ServerAction::Drop(HandshakeError::HandshakePeerError("garbled".to_string()))
    );
    assert!(server.is_idle());
}

#[test]
fn a_fault_on_message_3_leaves_no_entry_behind() {
    let mut registry: SessionRegistry<u32, String> = SessionRegistry::new(8);
    registry.insert_pending([9, 9, 9, 9], 1).unwrap();
    registry.install_ratchet([8, 8, 8, 8], "other".to_string()).unwrap();
    let mut server = Dispatcher::with_registry(registry);
    server.step_with(ServerEvent::Received(vec![2, 0, 1, 9, 9, 9, 9, 0x31]), &keys(), None);
    assert_eq!(
        server.step_with(ServerEvent::CoreFault(CoreError::Own(vec![0xEE])), &keys(), None),
        ServerAction::SendError(vec![0xEE])
    );
    assert!(!server.registry().contains(&[9, 9, 9, 9]));
    assert_eq!(server.registry().recv_count(&[8, 8, 8, 8]), Some(2));
}

#[test]
fn keys_of_a_wrong_length_drop_the_handshake() {
    let mut registry: SessionRegistry<u32, String> = SessionRegistry::new(8);
    registry.insert_pending([9, 9, 9, 9], 1).unwrap();
    let mut server = Dispatcher::with_registry(registry);
    server.step_with(ServerEvent::Received(vec![2, 0, 1, 9, 9, 9, 9, 0x31]), &keys(), None);
    server.step_with(ServerEvent::PeerKid(vec![0xA2]), &keys(), None);
    assert_eq!(
        server.step_with(
            ServerEvent::Message4 {
                message: vec![0x41],
                send_chain: vec![5; 32],
                recv_chain: vec![6; 32],
                root: vec![7; 33],
            },
            &keys(),
            None
        ),
        ServerAction::Drop(HandshakeError::InvalidKeyMaterial)
    );
    assert!(server.is_idle());
    assert_eq!(server.fcnt_down(), 0);
}

#[test]
fn a_busy_dispatcher_passes_frames_over() {
    let mut server = handling_msg1();
    assert_eq!(
        server.step_with(ServerEvent::Received(vec![0, 0, 0, 0x11]), &keys(), Some([9; 32])),
        ServerAction::Ignore
    );
    assert_eq!(server.handle_m_type_two(vec![2, 0, 1, 9, 9, 9, 9]), ServerAction::Ignore);
    assert_eq!(server.handle_ratchet_message(vec![5; 18]), ServerAction::Ignore);
    assert_eq!(server.phase(), ServerPhase::HandlingMsg1);
}

#[test]
fn events_out_of_turn_change_nothing_on_the_server() {
    let mut server = idle();
    assert_eq!(
        server.step_with(ServerEvent::Message2 { message: vec![1], receiver: 1 }, &keys(), Some([3; 32])),
        ServerAction::Ignore
    );
    assert_eq!(server.step_with(ServerEvent::PeerKid(vec![0xA2]), &keys(), None), ServerAction::Ignore);
    assert_eq!(
        server.step_with(ServerEvent::RatchetReady("r".to_string()), &keys(), None),
        ServerAction::Ignore
    );
    assert_eq!(
        server.step_with(ServerEvent::RatchetRefused { ratchet: "r".to_string() }, &keys(), None),
        ServerAction::Ignore
    );
    assert_eq!(
        server.step_with(ServerEvent::CoreFault(CoreError::Own(vec![1])), &keys(), None),
        ServerAction::Ignore
    );
    assert!(server.is_idle());
    assert_eq!(server.registry().len(), 0);
    assert_eq!(server.fcnt_down(), 0);
}

#[test]
fn handle_m_type_zero_hands_the_payload_to_the_core() {
    let mut server = idle();
    match server.handle_m_type_zero(vec![0, 0, 5, 0xAA, 0xBB], &keys(), Some([4; 32])) {
        ServerAction::HandleMessage1 { payload, setup } => {
            assert_eq!(payload, vec![0xAA, 0xBB]);
            assert_eq!(setup.ephemeral_secret, [4; 32]);
        }
        other => panic!("message 1 was not handed to the core: {:?}", other),
    }
}

#[test]
fn handle_m_type_two_takes_the_pending_handshake() {
    let mut registry: SessionRegistry<u32, String> = SessionRegistry::new(8);
    registry.insert_pending([9, 9, 9, 9], 41).unwrap();
    let mut server = Dispatcher::with_registry(registry);
    assert_eq!(
        server.handle_m_type_two(vec![2, 0, 1, 9, 9, 9, 9, 0x31, 0x32]),
        ServerAction::UnpackMessage3 { receiver: 41, payload: vec![0x31, 0x32] }
    );
    assert_eq!(server.phase(), ServerPhase::UnpackingMsg3 { devaddr: [9, 9, 9, 9] });
}
