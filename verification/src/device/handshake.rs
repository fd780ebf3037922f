//! The initiator side of the handshake, on the end device.
//!
//! The handshake is a state machine that neither touches the radio nor
//! runs the EDHOC core. It is told what happened, an event, and answers with
//! what is to be done next, an action. The caller carries each action out
//! and reports its outcome as the next event:
//!
//! ```text
//! begin ............................ the core is started for message 1
//! CreatingMsg1   + message 1 ....... Transmit, then listen
//! AwaitingMsg2   + frame of type 1 . UnpackMessage2
//! UnpackingMsg2  + peer's KID ...... VerifyMessage2 with the peer's key
//! VerifyingMsg2  + message 3 ....... Transmit, then listen
//! AwaitingMsg4   + frame of type 3 . HandleMessage4
//! HandlingMsg4   + the three keys .. Stop: Established
//! ```
//!
//! A fault of the core, a closed receive window or a frame of another type
//! ends the handshake in `Failed`. A frame too short to be read is dropped
//! and the windows open once more.

use crate::crypto::fresh_key;
use crate::crypto::x25519_public;
use crate::crypto::x25519_public_key;
use crate::device::keys::Config;
use crate::device::keys::RatchetKeys;
use crate::device::keys::StaticKeys;
use crate::device::keys::ED_KID;
use crate::envelope::classify;
use crate::envelope::classify_frame;
use crate::envelope::decode;
use crate::envelope::encode;
use crate::envelope::next_fcnt;
use crate::envelope::prepare_message;
use crate::envelope::remove_message;
use crate::envelope::FrameCounter;
use crate::envelope::Inbound;
use crate::envelope::MTYPE_EDHOC_1;
use crate::envelope::MTYPE_EDHOC_2;
use crate::envelope::MTYPE_EDHOC_3;
use crate::envelope::MTYPE_EDHOC_4;
use crate::error::reply_owed;
use crate::error::reports;
use crate::error::CoreError;
use crate::error::HandshakeError;
use crate::kid::lookup;
use crate::session::key_lengths_ok;
use vstd::prelude::*;
use vstd::slice::slice_to_vec;

verus! {

/// The EDHOC cipher suite of the initiator.
pub const SUITE_I: u8 = 3;

/// The EDHOC authentication method: static keys on both sides.
pub const METHOD_TYPE_I: u8 = 0;

/// What the EDHOC core is started with on the end device.
#[derive(Clone, Debug, PartialEq, Eq)]
pub struct InitiatorSetup {
    pub deveui: [u8; 8],
    pub appeui: [u8; 8],
    pub ephemeral_secret: [u8; 32],
    pub static_secret: [u8; 32],
    pub static_public: [u8; 32],
    pub kid: Vec<u8>,
    pub method_type: u8,
    pub suite: u8,
}

/// Where the end device stands in its handshake.
#[derive(Clone, Debug, PartialEq, Eq)]
pub enum HandshakeStateED {
    /// The core is asked for message 1.
    CreatingMsg1,
    /// Message 1 is sent; message 2 is awaited.
    AwaitingMsg2,
    /// The core reads message 2; `devaddr` is the address it came with.
    UnpackingMsg2 { devaddr: [u8; 4] },
    /// The core verifies message 2 against the peer's key and makes
    /// message 3.
    VerifyingMsg2 { devaddr: [u8; 4] },
    /// Message 3 is sent; message 4 is awaited.
    AwaitingMsg4,
    /// The core reads message 4; `devaddr` is the address it came with.
    HandlingMsg4 { devaddr: [u8; 4] },
    /// The handshake is done.
    Established(RatchetKeys),
    /// The handshake has ended without a session.
    Failed(HandshakeError),
}

/// What the caller reports to the handshake.
#[derive(Clone, Debug, PartialEq, Eq)]
pub enum DeviceEvent {
    /// A pair of receive windows has closed; empty when nothing came.
    Received(Vec<u8>),
    /// The core has made the message it was asked for.
    CoreMessage(Vec<u8>),
    /// The core has read message 2 and found this key identifier in it.
    PeerKid(Vec<u8>),
    /// The core has accepted message 4 and derived the session secrets.
    CoreKeys { send_chain: Vec<u8>, recv_chain: Vec<u8>, root: Vec<u8> },
    /// The core has failed.
    CoreFault(CoreError),
}

/// What the handshake asks of the caller.
#[derive(Clone, Debug, PartialEq, Eq)]
pub enum DeviceAction {
    /// Send this frame, open the receive windows, report `Received`.
    Transmit(Vec<u8>),
    /// Open the receive windows once more, report `Received`.
    Listen,
    /// Have the core read this message 2, report `PeerKid`.
    UnpackMessage2(Vec<u8>),
    /// Have the core verify message 2 against this static public key and
    /// make message 3, report `CoreMessage`.
    VerifyMessage2([u8; 32]),
    /// Have the core read this message 4, report `CoreKeys`.
    HandleMessage4(Vec<u8>),
    /// Send these bytes to the peer as they are; the handshake has failed.
    SendError(Vec<u8>),
    /// The handshake is over: established or failed.
    Stop,
    /// The event does not belong here; nothing has changed.
    Ignore,
}

/// The handshake of one end device: where it stands, and the counter of
/// the frames it has sent.
#[derive(Clone, Debug, PartialEq, Eq)]
pub struct DeviceHandshake {
    pub state: HandshakeStateED,
    pub fcnt_up: FrameCounter,
}

/// Whether `setup` is what the core is started with for these keys and
/// settings and this ephemeral secret.
pub open spec fn setup_for(
    keys: StaticKeys,
    config: Config,
    ephemeral: Seq<u8>,
    setup: InitiatorSetup,
) -> bool {
    &&& setup.deveui@ == config.deveui@
    &&& setup.appeui@ == config.appeui@
    &&& setup.ephemeral_secret@ == ephemeral
    &&& setup.static_secret@ == keys.ed_static_material@
    &&& setup.static_public@ == x25519_public(keys.ed_static_material@)
    &&& setup.kid@ == seq![ED_KID]
    &&& setup.method_type == METHOD_TYPE_I
    &&& setup.suite == SUITE_I
}

/// The type of frame that `state` waits for, if it waits for one.
pub open spec fn awaited(state: HandshakeStateED) -> Option<u8> {
    match state {
        HandshakeStateED::AwaitingMsg2 => Some(MTYPE_EDHOC_2),
        HandshakeStateED::AwaitingMsg4 => Some(MTYPE_EDHOC_4),
        _ => None,
    }
}

/// The address kept while the core is at work, if the core is at work.
pub open spec fn at_work(state: HandshakeStateED) -> Option<[u8; 4]> {
    match state {
        HandshakeStateED::UnpackingMsg2 { devaddr } => Some(devaddr),
        HandshakeStateED::VerifyingMsg2 { devaddr } => Some(devaddr),
        HandshakeStateED::HandlingMsg4 { devaddr } => Some(devaddr),
        _ => None,
    }
}

/// The handshake has failed with `error` and the counter stands as before.
pub open spec fn failed_with(
    pre: DeviceHandshake,
    post: DeviceHandshake,
    error: HandshakeError,
) -> bool {
    post.state == HandshakeStateED::Failed(error) && post.fcnt_up@ == pre.fcnt_up@
}

/// What a closed pair of receive windows with the bytes `b` leads to.
pub open spec fn received_step(
    pre: DeviceHandshake,
    b: Seq<u8>,
    post: DeviceHandshake,
    action: DeviceAction,
) -> bool {
    match awaited(pre.state) {
        None => post == pre && action is Ignore,
        Some(mtype) => match classify(b, mtype) {
            Inbound::Nothing => failed_with(pre, post, HandshakeError::Timeout) && action is Stop,
            Inbound::Malformed => post == pre && action is Listen,
            Inbound::Unexpected => failed_with(pre, post, HandshakeError::UnexpectedMessage)
                && action is Stop,
            Inbound::Expected => {
                &&& post.fcnt_up@ == pre.fcnt_up@
                &&& if mtype == MTYPE_EDHOC_2 {
                    &&& post.state matches HandshakeStateED::UnpackingMsg2 { devaddr }
                    &&& devaddr@ == decode(b, false).devaddr
                    &&& action matches DeviceAction::UnpackMessage2(payload)
                    &&& payload@ == decode(b, false).payload
                } else {
                    &&& post.state matches HandshakeStateED::HandlingMsg4 { devaddr }
                    &&& devaddr@ == decode(b, false).devaddr
                    &&& action matches DeviceAction::HandleMessage4(payload)
                    &&& payload@ == decode(b, false).payload
                }
            },
        },
    }
}

/// What a message `m` made by the core leads to: it is framed under the
/// current counter and sent.
pub open spec fn message_step(
    pre: DeviceHandshake,
    m: Seq<u8>,
    post: DeviceHandshake,
    action: DeviceAction,
) -> bool {
    match pre.state {
        HandshakeStateED::CreatingMsg1 => {
            &&& post.state is AwaitingMsg2
            &&& post.fcnt_up@ == next_fcnt(pre.fcnt_up@)
            &&& action matches DeviceAction::Transmit(frame)
            &&& frame@ == encode(m, MTYPE_EDHOC_1, pre.fcnt_up@, seq![0u8, 0u8, 0u8, 0u8], true)
        },
        HandshakeStateED::VerifyingMsg2 { devaddr } => {
            &&& post.state is AwaitingMsg4
            &&& post.fcnt_up@ == next_fcnt(pre.fcnt_up@)
            &&& action matches DeviceAction::Transmit(frame)
            &&& frame@ == encode(m, MTYPE_EDHOC_3, pre.fcnt_up@, devaddr@, false)
        },
        _ => post == pre && action is Ignore,
    }
}

/// What the peer's key identifier `kid` leads to: the peer's key is looked
/// up in the directory, and the handshake fails if it is not there.
pub open spec fn kid_step(
    pre: DeviceHandshake,
    kid: Seq<u8>,
    keys: StaticKeys,
    post: DeviceHandshake,
    action: DeviceAction,
) -> bool {
    match pre.state {
        HandshakeStateED::UnpackingMsg2 { devaddr } => match lookup(keys.directory(), kid) {
            Some(key) => {
                &&& post.state == (HandshakeStateED::VerifyingMsg2 { devaddr })
                &&& post.fcnt_up@ == pre.fcnt_up@
                &&& action matches DeviceAction::VerifyMessage2(k)
                &&& k@ == key
            },
            None => failed_with(pre, post, HandshakeError::UnknownPeerKid) && action is Stop,
        },
        _ => post == pre && action is Ignore,
    }
}

/// What the session secrets lead to: the handshake is established if each
/// is 32 bytes long, and fails otherwise.
pub open spec fn keys_step(
    pre: DeviceHandshake,
    send_chain: Seq<u8>,
    recv_chain: Seq<u8>,
    root: Seq<u8>,
    post: DeviceHandshake,
    action: DeviceAction,
) -> bool {
    match pre.state {
        HandshakeStateED::HandlingMsg4 { devaddr } => {
            &&& action is Stop
            &&& post.fcnt_up@ == pre.fcnt_up@
            &&& if key_lengths_ok(send_chain, recv_chain, root) {
                &&& post.state matches HandshakeStateED::Established(k)
                &&& k.ed_sck@ == send_chain
                &&& k.ed_rck@ == recv_chain
                &&& k.ed_rk@ == root
                &&& k.devaddr@ == devaddr@
            } else {
                post.state == HandshakeStateED::Failed(HandshakeError::InvalidKeyMaterial)
            }
        },
        _ => post == pre && action is Ignore,
    }
}

/// What a fault of the core leads to: the handshake fails. Once the
/// exchange has begun, an error message of our own side is owed to the
/// peer.
pub open spec fn fault_step(
    pre: DeviceHandshake,
    fault: CoreError,
    post: DeviceHandshake,
    action: DeviceAction,
) -> bool {
    match pre.state {
        HandshakeStateED::CreatingMsg1 => {
            &&& post.state matches HandshakeStateED::Failed(e)
            &&& reports(e, fault)
            &&& post.fcnt_up@ == pre.fcnt_up@
            &&& action is Stop
        },
        _ => if at_work(pre.state) is Some {
            &&& post.state matches HandshakeStateED::Failed(e)
            &&& reports(e, fault)
            &&& post.fcnt_up@ == pre.fcnt_up@
            &&& match reply_owed(fault) {
                Some(bytes) => action matches DeviceAction::SendError(b) && b@ == bytes,
                None => action is Stop,
            }
        } else {
            post == pre && action is Ignore
        },
    }
}

/// The step of the handshake: from `pre`, told `event`, to `post` with
/// `action` asked of the caller.
pub open spec fn device_step(
    pre: DeviceHandshake,
    event: DeviceEvent,
    keys: StaticKeys,
    post: DeviceHandshake,
    action: DeviceAction,
) -> bool {
    match event {
        DeviceEvent::Received(bytes) => received_step(pre, bytes@, post, action),
        DeviceEvent::CoreMessage(m) => message_step(pre, m@, post, action),
        DeviceEvent::PeerKid(kid) => kid_step(pre, kid@, keys, post, action),
        DeviceEvent::CoreKeys { send_chain, recv_chain, root } => keys_step(
            pre,
            send_chain@,
            recv_chain@,
            root@,
            post,
            action,
        ),
        DeviceEvent::CoreFault(fault) => fault_step(pre, fault, post, action),
    }
}

impl DeviceHandshake {
    /// Starts a handshake with the ephemeral secret `ephemeral`: the state
    /// in which message 1 is asked for, the counter at zero, and what the
    /// core is to be started with.
    pub fn begin_with(keys: &StaticKeys, config: &Config, ephemeral: [u8; 32]) -> (out: (
        DeviceHandshake,
        InitiatorSetup,
    ))
        ensures
            out.0.state is CreatingMsg1,
            out.0.fcnt_up@ == 0,
            in_step(out.0),
            setup_for(*keys, *config, ephemeral@, out.1),
    {
        let mut kid: Vec<u8> = Vec::new();
        kid.push(ED_KID);
        assert(kid@ =~= seq![ED_KID]);
        let setup = InitiatorSetup {
            deveui: config.deveui,
            appeui: config.appeui,
            ephemeral_secret: ephemeral,
            static_secret: keys.ed_static_material,
            static_public: x25519_public_key(&keys.ed_static_material),
            kid,
            method_type: METHOD_TYPE_I,
            suite: SUITE_I,
        };
        (
            DeviceHandshake { state: HandshakeStateED::CreatingMsg1, fcnt_up: FrameCounter::new() },
            setup,
        )
    }

    /// Starts a handshake with a fresh ephemeral secret from the operating
    /// system. Fails, with `NoEntropy`, only when the system gave none.
    pub fn begin(keys: &StaticKeys, config: &Config) -> (out: Result<
        (DeviceHandshake, InitiatorSetup),
        HandshakeError,
    >)
        ensures
            out matches Ok(started) ==> {
                &&& started.0.state is CreatingMsg1
                &&& started.0.fcnt_up@ == 0
                &&& in_step(started.0)
                &&& setup_for(*keys, *config, started.1.ephemeral_secret@, started.1)
            },
            out matches Err(e) ==> e == HandshakeError::NoEntropy,
    {
        match fresh_key() {
            Some(ephemeral) => Ok(DeviceHandshake::begin_with(keys, config, ephemeral)),
            None => Err(HandshakeError::NoEntropy),
        }
    }

    /// The type of frame that is waited for, if one is.
    fn awaited_type(&self) -> (mtype: Option<u8>)
        ensures
            mtype == awaited(self.state),
    {
        match &self.state {
            HandshakeStateED::AwaitingMsg2 => Some(MTYPE_EDHOC_2),
            HandshakeStateED::AwaitingMsg4 => Some(MTYPE_EDHOC_4),
            _ => None,
        }
    }

    /// The address kept while the core is at work, if it is.
    fn work_address(&self) -> (devaddr: Option<[u8; 4]>)
        ensures
            devaddr == at_work(self.state),
    {
        match &self.state {
            HandshakeStateED::UnpackingMsg2 { devaddr } => Some(*devaddr),
            HandshakeStateED::VerifyingMsg2 { devaddr } => Some(*devaddr),
            HandshakeStateED::HandlingMsg4 { devaddr } => Some(*devaddr),
            _ => None,
        }
    }

    /// Takes what a pair of receive windows brought.
    pub fn on_received(&mut self, bytes: Vec<u8>) -> (action: DeviceAction)
        ensures
            received_step(*old(self), bytes@, *final(self), action),
    {
        let mtype: u8 = match self.awaited_type() {
            Some(mtype) => mtype,
            None => {
                return DeviceAction::Ignore;
            },
        };
        match classify_frame(bytes.as_slice(), mtype) {
            Inbound::Nothing => {
                self.state = HandshakeStateED::Failed(HandshakeError::Timeout);
                DeviceAction::Stop
            },
            Inbound::Malformed => DeviceAction::Listen,
            Inbound::Unexpected => {
                self.state = HandshakeStateED::Failed(HandshakeError::UnexpectedMessage);
                DeviceAction::Stop
            },
            Inbound::Expected => {
                let parts = remove_message(bytes);
                if mtype == MTYPE_EDHOC_2 {
                    self.state = HandshakeStateED::UnpackingMsg2 { devaddr: parts.devaddr };
                    DeviceAction::UnpackMessage2(parts.msg)
                } else {
                    self.state = HandshakeStateED::HandlingMsg4 { devaddr: parts.devaddr };
                    DeviceAction::HandleMessage4(parts.msg)
                }
            },
        }
    }

    /// Takes the message that the core has made and frames it for sending.
    pub fn on_core_message(&mut self, message: Vec<u8>) -> (action: DeviceAction)
        ensures
            message_step(*old(self), message@, *final(self), action),
    {
        let creating: bool = match &self.state {
            HandshakeStateED::CreatingMsg1 => true,
            _ => false,
        };
        let verifying: Option<[u8; 4]> = match &self.state {
            HandshakeStateED::VerifyingMsg2 { devaddr } => Some(*devaddr),
            _ => None,
        };
        if creating {
            let none: [u8; 4] = [0u8, 0u8, 0u8, 0u8];
            assert(none@ =~= seq![0u8, 0u8, 0u8, 0u8]);
            let frame: Vec<u8> = prepare_message(
                message,
                MTYPE_EDHOC_1,
                true,
                none,
                &mut self.fcnt_up,
            );
            self.state = HandshakeStateED::AwaitingMsg2;
            DeviceAction::Transmit(frame)
        } else {
            match verifying {
                Some(devaddr) => {
                    let frame: Vec<u8> = prepare_message(
                        message,
                        MTYPE_EDHOC_3,
                        false,
                        devaddr,
                        &mut self.fcnt_up,
                    );
                    self.state = HandshakeStateED::AwaitingMsg4;
                    DeviceAction::Transmit(frame)
                },
                None => DeviceAction::Ignore,
            }
        }
    }

    /// Takes the key identifier that the core found in message 2 and picks
    /// the peer's static key from the directory.
    pub fn on_peer_kid(&mut self, kid: Vec<u8>, keys: &StaticKeys) -> (action: DeviceAction)
        ensures
            kid_step(*old(self), kid@, *keys, *final(self), action),
    {
        let unpacking: Option<[u8; 4]> = match &self.state {
            HandshakeStateED::UnpackingMsg2 { devaddr } => Some(*devaddr),
            _ => None,
        };
        match unpacking {
            Some(devaddr) => match keys.peer_key(kid.as_slice()) {
                Some(key) => {
                    self.state = HandshakeStateED::VerifyingMsg2 { devaddr };
                    DeviceAction::VerifyMessage2(key)
                },
                None => {
                    self.state = HandshakeStateED::Failed(HandshakeError::UnknownPeerKid);
                    DeviceAction::Stop
                },
            },
            None => DeviceAction::Ignore,
        }
    }

    /// Takes the session secrets that the core derived from message 4.
    pub fn on_core_keys(&mut self, send_chain: Vec<u8>, recv_chain: Vec<u8>, root: Vec<u8>) -> (action:
        DeviceAction)
        ensures
            keys_step(*old(self), send_chain@, recv_chain@, root@, *final(self), action),
    {
        let handling: Option<[u8; 4]> = match &self.state {
            HandshakeStateED::HandlingMsg4 { devaddr } => Some(*devaddr),
            _ => None,
        };
        match handling {
            Some(devaddr) => {
                if send_chain.len() == 32 && recv_chain.len() == 32 && root.len() == 32 {
                    self.state = HandshakeStateED::Established(
                        RatchetKeys {
                            ed_sck: send_chain,
                            ed_rck: recv_chain,
                            ed_rk: root,
                            devaddr: slice_to_vec(devaddr.as_slice()),
                        },
                    );
                } else {
                    self.state = HandshakeStateED::Failed(HandshakeError::InvalidKeyMaterial);
                }
                DeviceAction::Stop
            },
            None => DeviceAction::Ignore,
        }
    }

    /// Takes a fault of the core.
    pub fn on_core_fault(&mut self, fault: CoreError) -> (action: DeviceAction)
        ensures
            fault_step(*old(self), fault, *final(self), action),
    {
        let creating: bool = match &self.state {
            HandshakeStateED::CreatingMsg1 => true,
            _ => false,
        };
        if creating {
            let (error, _) = fault.settle();
            self.state = HandshakeStateED::Failed(error);
            DeviceAction::Stop
        } else if self.work_address().is_some() {
            let (error, reply) = fault.settle();
            self.state = HandshakeStateED::Failed(error);
            match reply {
                Some(bytes) => DeviceAction::SendError(bytes),
                None => DeviceAction::Stop,
            }
        } else {
            DeviceAction::Ignore
        }
    }

    /// One step of the handshake: takes `event` and says what to do next.
    pub fn step(&mut self, event: DeviceEvent, keys: &StaticKeys) -> (action: DeviceAction)
        ensures
            device_step(*old(self), event, *keys, *final(self), action),
    {
        match event {
            DeviceEvent::Received(bytes) => self.on_received(bytes),
            DeviceEvent::CoreMessage(message) => self.on_core_message(message),
            DeviceEvent::PeerKid(kid) => self.on_peer_kid(kid, keys),
            DeviceEvent::CoreKeys { send_chain, recv_chain, root } => self.on_core_keys(
                send_chain,
                recv_chain,
                root,
            ),
            DeviceEvent::CoreFault(fault) => self.on_core_fault(fault),
        }
    }

    /// The keys of the established session, if the handshake is done.
    pub fn keys(&self) -> (keys: Option<&RatchetKeys>)
        ensures
            keys is Some <==> self.state is Established,
            keys matches Some(k) ==> self.state == HandshakeStateED::Established(*k),
    {
        match &self.state {
            HandshakeStateED::Established(keys) => Some(keys),
            _ => None,
        }
    }
}

/// A handshake that is established or has failed stays as it is, whatever
/// it is told.
pub proof fn lemma_terminal(
    pre: DeviceHandshake,
    event: DeviceEvent,
    keys: StaticKeys,
    post: DeviceHandshake,
    action: DeviceAction,
)
    requires
        pre.state is Established || pre.state is Failed,
        device_step(pre, event, keys, post, action),
    ensures
        post == pre,
        action is Ignore,
{
}

/// The counter moves exactly when a frame is handed out for sending: that
/// frame carries the counter as it stood, and the counter is one further,
/// modulo 65536. Every other step leaves the counter alone.
pub proof fn lemma_step_counts_frames(
    pre: DeviceHandshake,
    event: DeviceEvent,
    keys: StaticKeys,
    post: DeviceHandshake,
    action: DeviceAction,
)
    requires
        device_step(pre, event, keys, post, action),
    ensures
        action matches DeviceAction::Transmit(frame) ==> {
            &&& frame@.len() >= 3
            &&& decode(frame@, true).fcnt == pre.fcnt_up@
            &&& post.fcnt_up@ as int == (pre.fcnt_up@ as int + 1) % 65536
        },
        !(action is Transmit) ==> post.fcnt_up@ == pre.fcnt_up@,
{
    if let DeviceAction::Transmit(frame) = action {
        match event {
            DeviceEvent::CoreMessage(m) => {
                match pre.state {
                    HandshakeStateED::CreatingMsg1 => {
                        crate::envelope::lemma_decode_encode(
                            m@,
                            MTYPE_EDHOC_1,
                            pre.fcnt_up@,
                            seq![0u8, 0u8, 0u8, 0u8],
                            true,
                        );
                    },
                    HandshakeStateED::VerifyingMsg2 { devaddr } => {
                        crate::envelope::lemma_fcnt_bytes(pre.fcnt_up@);
                    },
                    _ => {},
                }
            },
            _ => {},
        }
    }
}

/// Whether the counter stands where the handshake has got to: at zero
/// before message 1 is sent, at one between message 1 and message 3, and at
/// two from message 3 on.
pub open spec fn in_step(h: DeviceHandshake) -> bool {
    match h.state {
        HandshakeStateED::CreatingMsg1 => h.fcnt_up@ == 0,
        HandshakeStateED::AwaitingMsg2 => h.fcnt_up@ == 1,
        HandshakeStateED::UnpackingMsg2 { .. } => h.fcnt_up@ == 1,
        HandshakeStateED::VerifyingMsg2 { .. } => h.fcnt_up@ == 1,
        HandshakeStateED::AwaitingMsg4 => h.fcnt_up@ == 2,
        HandshakeStateED::HandlingMsg4 { .. } => h.fcnt_up@ == 2,
        HandshakeStateED::Established(_) => h.fcnt_up@ == 2,
        HandshakeStateED::Failed(_) => h.fcnt_up@ <= 2,
    }
}

/// A handshake sends two frames and no more: message 1 under the counter
/// zero and message 3 under the counter one. A handshake that was begun
/// stays in step with its counter through every step.
pub proof fn lemma_two_frames(
    pre: DeviceHandshake,
    event: DeviceEvent,
    keys: StaticKeys,
    post: DeviceHandshake,
    action: DeviceAction,
)
    requires
        in_step(pre),
        device_step(pre, event, keys, post, action),
    ensures
        in_step(post),
        action matches DeviceAction::Transmit(frame) ==> {
            &&& frame@.len() >= 3
            &&& pre.state is CreatingMsg1 ==> frame@[0] == MTYPE_EDHOC_1 && decode(frame@, true).fcnt
                == 0
            &&& !(pre.state is CreatingMsg1) ==> frame@[0] == MTYPE_EDHOC_3 && decode(
                frame@,
                true,
            ).fcnt == 1
        },
{
    lemma_step_counts_frames(pre, event, keys, post, action);
}

/// The handshake is established only out of the state in which message 4
/// is read, and then with the keys that the core derived, unchanged, under
/// the address that message 4 came with.
pub proof fn lemma_established_from_keys(
    pre: DeviceHandshake,
    event: DeviceEvent,
    keys: StaticKeys,
    post: DeviceHandshake,
    action: DeviceAction,
)
    requires
        !(pre.state is Established),
        post.state is Established,
        device_step(pre, event, keys, post, action),
    ensures
        pre.state is HandlingMsg4,
        event is CoreKeys,
        post.state->Established_0.wf(),
        post.state->Established_0.ed_sck@ == event->send_chain@,
        post.state->Established_0.ed_rck@ == event->recv_chain@,
        post.state->Established_0.ed_rk@ == event->root@,
        post.state->Established_0.devaddr@ == pre.state->HandlingMsg4_devaddr@,
{
}

} // verus!
