use lora_ratchet::device::keys::RatchetKeys;
use lora_ratchet::device::ratchet::payload_of_draw;
use lora_ratchet::device::ratchet::RatchetAction;
use lora_ratchet::device::ratchet::RatchetEvent;
use lora_ratchet::device::ratchet::RatchetLoop;
use lora_ratchet::device::ratchet::RatchetPhase;
use lora_ratchet::device::ratchet::SETTLE_MILLIS;
use lora_ratchet::device::ratchet::TICK_MILLIS;
use lora_ratchet::error::HandshakeError;
use lora_ratchet::session::SessionKeys;

const SLEEP: RatchetAction = RatchetAction::Sleep { radio_sleep: true, millis: 10000 };

fn keys() -> RatchetKeys {
    RatchetKeys {
        ed_sck: vec![1; 32],
        ed_rck: vec![2; 32],
        ed_rk: vec![3; 32],
        devaddr: vec![0xDA, 1, 2, 3],
    }
}

fn at(phase: RatchetPhase, dhr_const: u16) -> RatchetLoop {
    RatchetLoop { phase, dhr_const }
}

fn one_tick(ratchet: &mut RatchetLoop, fcnt_up: u16) -> Vec<RatchetAction> {
    let mut asked = Vec::new();
    asked.push(ratchet.step_with(RatchetEvent::Slept, fcnt_up, Some([1, 2, 3, 4, 5, 6, 7, 8])));
    asked.push(ratchet.step_with(RatchetEvent::Encrypted(vec![5, 0xAA]), fcnt_up, None));
    asked.push(ratchet.step_with(RatchetEvent::Sent(true), fcnt_up, None));
    asked.push(ratchet.step_with(RatchetEvent::Received(Vec::new()), fcnt_up, None));
    asked
}

#[test]
fn the_loop_starts_with_the_settle_delay() {
    let (ratchet, session, action) = RatchetLoop::start(&keys(), 5).unwrap();
    assert_eq!(ratchet, at(RatchetPhase::Settling, 5));
    assert_eq!(SETTLE_MILLIS, 5000);
    assert_eq!(action, RatchetAction::Sleep { radio_sleep: false, millis: 5000 });
    assert_eq!(
        session,
        SessionKeys {
            root_key: [3; 32],
            recv_chain_key: [2; 32],
            send_chain_key: [1; 32],
            devaddr: [0xDA, 1, 2, 3],
        }
    );
}

#[test]
fn the_loop_refuses_keys_of_a_wrong_length() {
    let mut short = keys();
    short.ed_rk = vec![3; 16];
    assert_eq!(RatchetLoop::start(&short, 5).err(), Some(HandshakeError::InvalidKeyMaterial));
    let mut wide = keys();
    wide.devaddr = vec![1, 2, 3, 4, 5];
    assert_eq!(RatchetLoop::start(&wide, 5).err(), Some(HandshakeError::InvalidKeyMaterial));
    assert!(short.session().is_none());
    assert!(keys().session().is_some());
}

#[test]
fn a_quiet_tick_sends_listens_and_sleeps() {
    let mut ratchet = at(RatchetPhase::Settling, 5);
    let asked = one_tick(&mut ratchet, 1);
    assert_eq!(
        asked,
        vec![
            RatchetAction::Encrypt([1, 2, 3, 4, 5, 6, 7, 8]),
            RatchetAction::Transmit(vec![5, 0xAA]),
            RatchetAction::Listen,
            SLEEP,
        ]
    );
    assert_eq!(TICK_MILLIS, 10000);
    assert_eq!(ratchet.phase, RatchetPhase::Sleeping);
}

#[test]
fn a_downlink_is_handed_to_the_ratchet() {
    let mut ratchet = at(RatchetPhase::ListeningUplink, 5);
    assert_eq!(
        ratchet.step_with(RatchetEvent::Received(vec![6, 1, 2]), 1, None),
        RatchetAction::Absorb(vec![6, 1, 2])
    );
    assert_eq!(ratchet.phase, RatchetPhase::AbsorbingUplink);
    assert_eq!(ratchet.step_with(RatchetEvent::Absorbed, 1, None), SLEEP);
    assert_eq!(ratchet.phase, RatchetPhase::Sleeping);
}

#[test]
fn a_failed_uplink_is_passed_over() {
    let mut ratchet = at(RatchetPhase::SendingUplink, 5);
    assert_eq!(ratchet.step_with(RatchetEvent::Sent(false), 1, None), RatchetAction::Listen);
    assert_eq!(ratchet.phase, RatchetPhase::ListeningUplink);
}

#[test]
fn after_five_uplinks_the_device_asks_for_a_dh_step() {
    let mut ratchet = at(RatchetPhase::Settling, 5);
    for fcnt_up in 1u16..5 {
        let asked = one_tick(&mut ratchet, fcnt_up);
        assert_eq!(asked[3], SLEEP);
    }
    let asked = one_tick(&mut ratchet, 5);
    assert_eq!(asked[3], RatchetAction::InitiateRatchet);
    assert_eq!(ratchet.phase, RatchetPhase::RequestingDh);
    assert_eq!(
        ratchet.step_with(RatchetEvent::DhRequest(vec![7, 0xD0]), 5, None),
        RatchetAction::Transmit(vec![7, 0xD0])
    );
    assert_eq!(ratchet.step_with(RatchetEvent::Sent(true), 5, None), RatchetAction::Listen);
    assert_eq!(
        ratchet.step_with(RatchetEvent::Received(vec![8, 0xAC]), 5, None),
        RatchetAction::Absorb(vec![8, 0xAC])
    );
    assert_eq!(ratchet.step_with(RatchetEvent::Absorbed, 0, None), SLEEP);
    assert_eq!(ratchet.phase, RatchetPhase::Sleeping);
}

#[test]
fn the_dh_step_is_asked_for_after_the_downlink_too() {
    let mut ratchet = at(RatchetPhase::AbsorbingUplink, 5);
    assert_eq!(ratchet.step_with(RatchetEvent::Absorbed, 7, None), RatchetAction::InitiateRatchet);
    let mut ratchet = at(RatchetPhase::AbsorbingUplink, 5);
    assert_eq!(ratchet.step_with(RatchetEvent::Absorbed, 4, None), SLEEP);
}

#[test]
fn a_failed_dh_request_opens_no_window() {
    let mut ratchet = at(RatchetPhase::SendingDh, 5);
    assert_eq!(ratchet.step_with(RatchetEvent::Sent(false), 5, None), SLEEP);
    assert_eq!(ratchet.phase, RatchetPhase::Sleeping);
}

#[test]
fn a_dh_request_without_an_answer_ends_the_tick() {
    let mut ratchet = at(RatchetPhase::ListeningDh, 5);
    assert_eq!(ratchet.step_with(RatchetEvent::Received(Vec::new()), 5, None), SLEEP);
}

#[test]
fn a_tick_without_entropy_is_passed_over() {
    let mut ratchet = at(RatchetPhase::Sleeping, 5);
    assert_eq!(ratchet.step_with(RatchetEvent::Slept, 1, None), SLEEP);
    assert_eq!(ratchet.phase, RatchetPhase::Sleeping);
}

#[test]
fn the_loop_draws_its_own_payload() {
    let mut first = at(RatchetPhase::Sleeping, 5);
    let mut second = at(RatchetPhase::Sleeping, 5);
    let a = first.step(RatchetEvent::Slept, 1);
    let b = second.step(RatchetEvent::Slept, 1);
    assert!(matches!(a, RatchetAction::Encrypt(_)));
    assert!(matches!(b, RatchetAction::Encrypt(_)));
    assert_ne!(a, b);
    assert_eq!(first.phase, RatchetPhase::Encrypting);
}

#[test]
fn ratchet_events_out_of_turn_change_nothing() {
    let mut ratchet = at(RatchetPhase::Encrypting, 5);
    assert_eq!(ratchet.step_with(RatchetEvent::Slept, 9, Some([0; 8])), RatchetAction::Ignore);
    assert_eq!(ratchet.step_with(RatchetEvent::Sent(true), 9, None), RatchetAction::Ignore);
    assert_eq!(ratchet.step_with(RatchetEvent::Received(vec![1]), 9, None), RatchetAction::Ignore);
    assert_eq!(ratchet.step_with(RatchetEvent::Absorbed, 9, None), RatchetAction::Ignore);
    assert_eq!(ratchet.step_with(RatchetEvent::DhRequest(vec![7]), 9, None), RatchetAction::Ignore);
    assert_eq!(ratchet, at(RatchetPhase::Encrypting, 5));
    let mut ratchet = at(RatchetPhase::Sleeping, 5);
    assert_eq!(ratchet.step_with(RatchetEvent::Encrypted(vec![5]), 9, None), RatchetAction::Ignore);
    assert_eq!(ratchet, at(RatchetPhase::Sleeping, 5));
}

#[test]
fn a_draw_of_8_bytes_is_the_payload() {
    assert_eq!(payload_of_draw(Some(vec![1, 2, 3, 4, 5, 6, 7, 8])), Some([1, 2, 3, 4, 5, 6, 7, 8]));
}

#[test]
fn a_failed_or_short_draw_gives_no_payload() {
    assert_eq!(payload_of_draw(None), None);
    assert_eq!(payload_of_draw(Some(vec![1; 7])), None);
    assert_eq!(payload_of_draw(Some(vec![1; 9])), None);
}
