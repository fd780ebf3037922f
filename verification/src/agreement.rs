//! What the two roles agree on.
//!
//! The end device and the server never see each other's state: all that
//! passes between them is frames. The statements here tie the two state
//! machines together. A message that the EDHOC core of one side hands over
//! for sending reaches the core of the other side byte for byte, under the
//! address that the server assigned; and where the two cores derive the same
//! secrets, the two sessions hold them in mirrored roles.

use crate::device::handshake::keys_step;
use crate::device::handshake::message_step;
use crate::device::handshake::DeviceAction;
use crate::device::handshake::DeviceHandshake;
use crate::envelope::lemma_decode_encode;
use crate::envelope::MTYPE_EDHOC_1;
use crate::envelope::MTYPE_EDHOC_2;
use crate::envelope::MTYPE_EDHOC_3;
use crate::envelope::MTYPE_EDHOC_4;
use crate::registry::holds;
use crate::registry::index_of;
use crate::registry::Slot;
use crate::server::dispatcher::lemma_first_free;
use crate::server::dispatcher::first_free;
use crate::server::dispatcher::message2_step;
use crate::server::dispatcher::message4_step;
use crate::server::dispatcher::received_step;
use crate::server::dispatcher::ServerState;
use crate::server::dispatcher::ServerAction;
use crate::server::keys::StaticKeys;
use crate::session::key_lengths_ok;
use vstd::prelude::*;

verus! {

/// Message 1 as the device's core made it is what the server's core is
/// given, provided the server is idle and has a fresh secret.
pub proof fn lemma_message1_arrives<P, R>(
    device: DeviceHandshake,
    m: Seq<u8>,
    device_after: DeviceHandshake,
    sent: DeviceAction,
    server: ServerState<P, R>,
    keys: StaticKeys,
    ephemeral: [u8; 32],
    server_after: ServerState<P, R>,
    asked: ServerAction<P, R>,
)
    requires
        device.state is CreatingMsg1,
        message_step(device, m, device_after, sent),
        server.phase is Idle,
        received_step(server, sent->Transmit_0@, keys, Some(ephemeral), server_after, asked),
    ensures
        sent is Transmit,
        asked is HandleMessage1,
        asked->HandleMessage1_payload@ == m,
{
    lemma_decode_encode(m, MTYPE_EDHOC_1, device.fcnt_up@, seq![0u8, 0u8, 0u8, 0u8], true);
}

/// Message 2 as the server's core made it is what the device's core is
/// given, and the device learns the address that the server assigned.
pub proof fn lemma_message2_arrives<P, R>(
    server: ServerState<P, R>,
    m: Seq<u8>,
    receiver: P,
    draw: [u8; 32],
    server_after: ServerState<P, R>,
    sent: ServerAction<P, R>,
    device: DeviceHandshake,
    device_after: DeviceHandshake,
    asked: DeviceAction,
)
    requires
        message2_step(server, m, receiver, Some(draw), server_after, sent),
        sent is Transmit,
        device.state is AwaitingMsg2,
        crate::device::handshake::received_step(device, sent->Transmit_0@, device_after, asked),
    ensures
        asked is UnpackMessage2,
        asked->UnpackMessage2_0@ == m,
        device_after.state is UnpackingMsg2,
        Some(device_after.state->UnpackingMsg2_devaddr@) == first_free(server.sessions, draw@),
        server_after.sessions.last().devaddr@ == device_after.state->UnpackingMsg2_devaddr@,
{
    lemma_first_free(server.sessions, draw@, 0);
    let a = first_free(server.sessions, draw@)->Some_0;
    lemma_decode_encode(m, MTYPE_EDHOC_2, server.fcnt_down, a, false);
}

/// Message 3 as the device's core made it is what the server's core is
/// given, together with the pending handshake that the server kept for the
/// device's address.
pub proof fn lemma_message3_arrives<P, R>(
    device: DeviceHandshake,
    m: Seq<u8>,
    device_after: DeviceHandshake,
    sent: DeviceAction,
    server: ServerState<P, R>,
    keys: StaticKeys,
    draw: Option<[u8; 32]>,
    server_after: ServerState<P, R>,
    asked: ServerAction<P, R>,
)
    requires
        device.state is VerifyingMsg2,
        message_step(device, m, device_after, sent),
        server.phase is Idle,
        holds(server.sessions, device.state->VerifyingMsg2_devaddr@),
        server.sessions[index_of(server.sessions, device.state->VerifyingMsg2_devaddr@)].slot
            is Pending,
        received_step(server, sent->Transmit_0@, keys, draw, server_after, asked),
    ensures
        sent is Transmit,
        asked is UnpackMessage3,
        asked->UnpackMessage3_payload@ == m,
        server.sessions[index_of(server.sessions, device.state->VerifyingMsg2_devaddr@)].slot
            == Slot::<P, R>::Pending(asked->UnpackMessage3_receiver),
        server_after.phase is UnpackingMsg3,
        server_after.phase->UnpackingMsg3_devaddr@ == device.state->VerifyingMsg2_devaddr@,
{
    let devaddr = device.state->VerifyingMsg2_devaddr;
    lemma_decode_encode(m, MTYPE_EDHOC_3, device.fcnt_up@, devaddr@, false);
}

/// Message 4 as the server's core made it is what the device's core is
/// given, and it reaches the device under the address of the session that
/// the server is about to enter.
pub proof fn lemma_message4_arrives<P, R>(
    server: ServerState<P, R>,
    m: Seq<u8>,
    send_chain: Seq<u8>,
    recv_chain: Seq<u8>,
    root: Seq<u8>,
    server_after: ServerState<P, R>,
    sent: ServerAction<P, R>,
    device: DeviceHandshake,
    device_after: DeviceHandshake,
    asked: DeviceAction,
)
    requires
        message4_step(server, m, send_chain, recv_chain, root, server_after, sent),
        sent is InstallRatchet,
        device.state is AwaitingMsg4,
        crate::device::handshake::received_step(
            device,
            sent->InstallRatchet_frame@,
            device_after,
            asked,
        ),
    ensures
        asked is HandleMessage4,
        asked->HandleMessage4_0@ == m,
        device_after.state is HandlingMsg4,
        device_after.state->HandlingMsg4_devaddr@ == sent->InstallRatchet_keys.devaddr@,
{
    let devaddr = server.phase->VerifyingMsg3_devaddr;
    lemma_decode_encode(m, MTYPE_EDHOC_4, server.fcnt_down, devaddr@, false);
}

/// Where the two cores derive the same root key, and each the sending
/// chain key that is the other's receiving chain key, the session that the
/// device establishes and the session that the server installs hold the
/// same root key and address, and each sends with the key that the other
/// receives with.
pub proof fn lemma_sessions_agree<P, R>(
    device: DeviceHandshake,
    ed_send: Seq<u8>,
    ed_recv: Seq<u8>,
    ed_root: Seq<u8>,
    device_after: DeviceHandshake,
    device_action: DeviceAction,
    server: ServerState<P, R>,
    m: Seq<u8>,
    as_send: Seq<u8>,
    as_recv: Seq<u8>,
    as_root: Seq<u8>,
    server_after: ServerState<P, R>,
    server_action: ServerAction<P, R>,
)
    requires
        device.state is HandlingMsg4,
        keys_step(device, ed_send, ed_recv, ed_root, device_after, device_action),
        server.phase is VerifyingMsg3,
        message4_step(server, m, as_send, as_recv, as_root, server_after, server_action),
        device.state->HandlingMsg4_devaddr@ == server.phase->VerifyingMsg3_devaddr@,
        key_lengths_ok(ed_send, ed_recv, ed_root),
        ed_send == as_recv,
        ed_recv == as_send,
        ed_root == as_root,
    ensures
        device_after.state is Established,
        server_action is InstallRatchet,
        device_after.state->Established_0.ed_sck@
            == server_action->InstallRatchet_keys.recv_chain_key@,
        device_after.state->Established_0.ed_rck@
            == server_action->InstallRatchet_keys.send_chain_key@,
        device_after.state->Established_0.ed_rk@ == server_action->InstallRatchet_keys.root_key@,
        device_after.state->Established_0.devaddr@ == server_action->InstallRatchet_keys.devaddr@,
{
}

} // verus!
