//! The server's dispatcher: the responder side of the handshake and the
//! routing of ratchet frames, for all devices on one radio.
//!
//! The dispatcher is a state machine that neither touches the radio nor
//! runs the EDHOC core or a ratchet. It is told what happened, an event,
//! and answers with what is to be done next, an action. It works on one
//! frame at a time:
//!
//! ```text
//! Idle + frame of type 0 ......... HandleMessage1
//!   HandlingMsg1 + message 2 ..... assign an address, enter the pending
//!                                  handshake, Transmit
//! Idle + frame of type 2 ......... take the pending handshake out,
//!                                  UnpackMessage3
//!   UnpackingMsg3 + peer's KID ... VerifyMessage3 with the peer's key
//!   VerifyingMsg3 + message 4 .... InstallRatchet
//!   CreatingRatchet + ratchet .... enter the ratchet, Listen
//! Idle + frame of type 5 or 7 .... lend the ratchet out, Receive
//!   Ratcheting + outcome ......... put the ratchet back, count the frame,
//!                                  Transmit the reply if there is one
//! ```
//!
//! Whatever goes wrong with one frame ends the work on that frame only; the
//! dispatcher is idle again and the other devices are untouched.

use crate::crypto::fresh_key;
use crate::crypto::x25519_public;
use crate::crypto::x25519_public_key;
use crate::envelope::decode;
use crate::envelope::devaddr_at;
use crate::envelope::encode;
use crate::envelope::next_fcnt;
use crate::envelope::prepare_message;
use crate::envelope::unpack_edhoc_first_message;
use crate::envelope::unpack_edhoc_message;
use crate::envelope::FrameCounter;
use crate::envelope::MTYPE_DH_REQUEST;
use crate::envelope::MTYPE_EDHOC_1;
use crate::envelope::MTYPE_EDHOC_2;
use crate::envelope::MTYPE_EDHOC_3;
use crate::envelope::MTYPE_EDHOC_4;
use crate::envelope::MTYPE_UPLINK;
use crate::error::reply_owed;
use crate::error::reports;
use crate::error::CoreError;
use crate::error::HandshakeError;
use crate::kid::lookup;
use crate::registry::distinct;
use crate::registry::holds;
use crate::registry::index_of;
use crate::registry::next_count;
use crate::registry::pending_bound;
use crate::registry::pending_count;
use crate::registry::with_room;
use crate::registry::with_slot;
use crate::registry::Entry;
use crate::registry::SessionRegistry;
use crate::registry::Slot;
use crate::registry::HANDSHAKE_UPLINKS;
use crate::server::keys::StaticKeys;
use crate::server::keys::AS_KID;
use crate::session::key_lengths_ok;
use crate::session::SessionKeys;
use vstd::prelude::*;

verus! {

/// Where the device address stands in a frame of the ratchet layer.
pub const RATCHET_DEVADDR_AT: usize = 14;

/// Shortest ratchet frame that holds a device address.
pub const RATCHET_MIN_LEN: usize = 18;

/// Number of random addresses tried for a new device.
pub const DEVADDR_DRAWS: usize = 8;

/// What the EDHOC core is started with on the server.
#[derive(Clone, Debug, PartialEq, Eq)]
pub struct ResponderSetup {
    pub ephemeral_secret: [u8; 32],
    pub static_secret: [u8; 32],
    pub static_public: [u8; 32],
    pub kid: Vec<u8>,
}

/// What the dispatcher is busy with.
#[derive(Clone, Copy, Debug, PartialEq, Eq)]
pub enum ServerPhase {
    /// Nothing; the next frame is awaited.
    Idle,
    /// The core reads message 1 and makes message 2.
    HandlingMsg1,
    /// The core reads message 3 of the device that was given `devaddr`.
    UnpackingMsg3 { devaddr: [u8; 4] },
    /// The core verifies message 3 against the device's key and makes
    /// message 4.
    VerifyingMsg3 { devaddr: [u8; 4] },
    /// Message 4 goes out and the ratchet of `devaddr` is made.
    CreatingRatchet { devaddr: [u8; 4] },
    /// The ratchet of `devaddr` is at work on a frame.
    Ratcheting { devaddr: [u8; 4] },
}

/// What the caller reports to the dispatcher. `P` is what the core keeps
/// between message 2 and message 3, `R` a ratchet.
#[derive(Debug, PartialEq, Eq)]
pub enum ServerEvent<P, R> {
    /// A frame has come in.
    Received(Vec<u8>),
    /// The core has accepted message 1 and made message 2.
    Message2 { message: Vec<u8>, receiver: P },
    /// The core has read message 3 and found this key identifier in it.
    PeerKid(Vec<u8>),
    /// The core has verified message 3, derived the session secrets and made
    /// message 4.
    Message4 { message: Vec<u8>, send_chain: Vec<u8>, recv_chain: Vec<u8>, root: Vec<u8> },
    /// The ratchet has been made from the session secrets.
    RatchetReady(R),
    /// The ratchet has accepted the frame. `reply` is to be sent where
    /// `send_flag` is set.
    RatchetAccepted { ratchet: R, reply: Vec<u8>, send_flag: bool },
    /// The ratchet has refused the frame.
    RatchetRefused { ratchet: R },
    /// The core has failed.
    CoreFault(CoreError),
}

/// What the dispatcher asks of the caller. After each of `Transmit`,
/// `SendError`, `Drop` and `Listen` the next frame is awaited.
#[derive(Debug, PartialEq, Eq)]
pub enum ServerAction<P, R> {
    /// Wait for the next frame, report `Received`.
    Listen,
    /// Start the core with `setup`, have it read this message 1 and make
    /// message 2, report `Message2`.
    HandleMessage1 { payload: Vec<u8>, setup: ResponderSetup },
    /// Send this frame.
    Transmit(Vec<u8>),
    /// Have `receiver` read this message 3, report `PeerKid`.
    UnpackMessage3 { receiver: P, payload: Vec<u8> },
    /// Have the core verify message 3 against this static public key and
    /// make message 4, report `Message4`.
    VerifyMessage3([u8; 32]),
    /// Send this frame, make the ratchet from `keys`, report `RatchetReady`.
    InstallRatchet { frame: Vec<u8>, keys: SessionKeys },
    /// Have `ratchet` take this frame, report what it said.
    Receive { ratchet: R, frame: Vec<u8> },
    /// Send these bytes to the peer as they are; the handshake has failed.
    SendError(Vec<u8>),
    /// The frame, or the handshake it belonged to, is given up for this
    /// reason. Nothing is sent.
    Drop(HandshakeError),
    /// The event does not belong here; nothing has changed.
    Ignore,
}

/// The server's side of all sessions: what it is busy with, the registry,
/// and the counter of the frames it has sent.
pub struct Dispatcher<P, R> {
    phase: ServerPhase,
    registry: SessionRegistry<P, R>,
    fcnt_down: FrameCounter,
}

/// A dispatcher as mathematical values: what it is busy with, the lines of
/// its registry, oldest first, the bound on pending handshakes, and the
/// number that the next handshake frame will carry.
pub struct ServerState<P, R> {
    pub phase: ServerPhase,
    pub sessions: Seq<Entry<P, R>>,
    pub max_pending: usize,
    pub fcnt_down: u16,
}

impl<P, R> ServerState<P, R> {
    /// No address occurs twice and the pending handshakes are within the
    /// bound; a device in a handshake past message 3 has no entry; a device
    /// whose ratchet is at work has its entry marked as lent.
    pub open spec fn wf(self) -> bool {
        &&& distinct(self.sessions)
        &&& pending_count(self.sessions) <= pending_bound(self.max_pending)
        &&& handshake_of(self.phase) matches Some(devaddr) ==> !holds(self.sessions, devaddr@)
        &&& self.phase matches ServerPhase::Ratcheting { devaddr } ==> holds(
            self.sessions,
            devaddr@,
        ) && self.sessions[index_of(self.sessions, devaddr@)].slot is Lent
    }
}

/// The `k`-th address of four bytes in the random bytes `draw`.
pub open spec fn candidate(draw: Seq<u8>, k: int) -> Seq<u8> {
    draw.subrange(4 * k, 4 * k + 4)
}

/// The first address from the `k`-th on in `draw` that `s` does not hold.
pub open spec fn first_free_from<P, R>(s: Seq<Entry<P, R>>, draw: Seq<u8>, k: nat) -> Option<
    Seq<u8>,
>
    decreases DEVADDR_DRAWS - k,
{
    if k >= DEVADDR_DRAWS {
        None
    } else if !holds(s, candidate(draw, k as int)) {
        Some(candidate(draw, k as int))
    } else {
        first_free_from(s, draw, k + 1)
    }
}

/// The address for a new device: the first of the eight addresses in the
/// 32 random bytes `draw` that `s` does not hold.
pub open spec fn first_free<P, R>(s: Seq<Entry<P, R>>, draw: Seq<u8>) -> Option<Seq<u8>> {
    first_free_from(s, draw, 0)
}

/// Whether `setup` is what the core is started with for these keys and
/// this ephemeral secret.
pub open spec fn setup_for(keys: StaticKeys, ephemeral: Seq<u8>, setup: ResponderSetup) -> bool {
    &&& setup.ephemeral_secret@ == ephemeral
    &&& setup.static_secret@ == keys.as_static_material@
    &&& setup.static_public@ == x25519_public(keys.as_static_material@)
    &&& setup.kid@ == seq![AS_KID]
}

/// The address that the dispatcher works for, if it is in a handshake past
/// message 3.
pub open spec fn handshake_of(phase: ServerPhase) -> Option<[u8; 4]> {
    match phase {
        ServerPhase::UnpackingMsg3 { devaddr } => Some(devaddr),
        ServerPhase::VerifyingMsg3 { devaddr } => Some(devaddr),
        ServerPhase::CreatingRatchet { devaddr } => Some(devaddr),
        _ => None,
    }
}

/// The registry holds what it held.
pub open spec fn registry_kept<P, R>(pre: ServerState<P, R>, post: ServerState<P, R>) -> bool {
    post.sessions == pre.sessions && post.max_pending == pre.max_pending
}

/// Nothing but the phase has changed, and the phase is `phase`.
pub open spec fn moved_to<P, R>(pre: ServerState<P, R>, post: ServerState<P, R>, phase: ServerPhase) -> bool {
    &&& post.phase == phase
    &&& registry_kept(pre, post)
    &&& post.fcnt_down == pre.fcnt_down
}

/// The work in hand is given up for `error`: the dispatcher is idle, and
/// registry and counter are as they were.
pub open spec fn dropped<P, R>(
    pre: ServerState<P, R>,
    post: ServerState<P, R>,
    action: ServerAction<P, R>,
    error: HandshakeError,
) -> bool {
    &&& moved_to(pre, post, ServerPhase::Idle)
    &&& action matches ServerAction::Drop(e)
    &&& e == error
}

/// What a frame of type 0, message 1, leads to.
pub open spec fn message1_step<P, R>(
    pre: ServerState<P, R>,
    b: Seq<u8>,
    keys: StaticKeys,
    draw: Option<[u8; 32]>,
    post: ServerState<P, R>,
    action: ServerAction<P, R>,
) -> bool {
    if b.len() < 3 {
        dropped(pre, post, action, HandshakeError::MalformedEnvelope)
    } else {
        match draw {
            None => dropped(pre, post, action, HandshakeError::NoEntropy),
            Some(ephemeral) => {
                &&& moved_to(pre, post, ServerPhase::HandlingMsg1)
                &&& action matches ServerAction::HandleMessage1 { payload, setup }
                &&& payload@ == decode(b, true).payload
                &&& setup_for(keys, ephemeral@, setup)
            },
        }
    }
}

/// What a frame of type 2, message 3, leads to.
pub open spec fn message3_step<P, R>(
    pre: ServerState<P, R>,
    b: Seq<u8>,
    post: ServerState<P, R>,
    action: ServerAction<P, R>,
) -> bool {
    if b.len() < 7 {
        dropped(pre, post, action, HandshakeError::MalformedEnvelope)
    } else {
        let a = decode(b, false).devaddr;
        let i = index_of(pre.sessions, a);
        if holds(pre.sessions, a) && pre.sessions[i].slot is Pending {
            &&& post.phase matches ServerPhase::UnpackingMsg3 { devaddr }
            &&& devaddr@ == a
            &&& post.sessions == pre.sessions.remove(i)
            &&& post.max_pending == pre.max_pending
            &&& post.fcnt_down == pre.fcnt_down
            &&& action matches ServerAction::UnpackMessage3 { receiver, payload }
            &&& pre.sessions[i].slot == Slot::<P, R>::Pending(receiver)
            &&& payload@ == decode(b, false).payload
        } else {
            dropped(pre, post, action, HandshakeError::UnknownDevaddr)
        }
    }
}

/// The address that a frame of the ratchet layer is for.
pub open spec fn ratchet_devaddr(b: Seq<u8>) -> Seq<u8> {
    b.subrange(RATCHET_DEVADDR_AT as int, RATCHET_MIN_LEN as int)
}

/// What a frame of type 5 or 7, a ratchet frame, leads to.
pub open spec fn ratchet_frame_step<P, R>(
    pre: ServerState<P, R>,
    b: Seq<u8>,
    post: ServerState<P, R>,
    action: ServerAction<P, R>,
) -> bool {
    if b.len() < RATCHET_MIN_LEN {
        dropped(pre, post, action, HandshakeError::MalformedEnvelope)
    } else {
        let a = ratchet_devaddr(b);
        let i = index_of(pre.sessions, a);
        if holds(pre.sessions, a) && pre.sessions[i].slot is Ratcheting {
            &&& post.phase matches ServerPhase::Ratcheting { devaddr }
            &&& devaddr@ == a
            &&& post.sessions == pre.sessions.update(i, with_slot(pre.sessions[i], Slot::Lent))
            &&& post.max_pending == pre.max_pending
            &&& post.fcnt_down == pre.fcnt_down
            &&& action matches ServerAction::Receive { ratchet, frame }
            &&& pre.sessions[i].slot == Slot::<P, R>::Ratcheting(ratchet)
            &&& frame@ == b
        } else {
            dropped(pre, post, action, HandshakeError::UnknownDevaddr)
        }
    }
}

/// A frame is taken up only by an idle dispatcher, where it leads to
/// `outcome`; a busy one passes it over.
pub open spec fn when_idle<P, R>(
    pre: ServerState<P, R>,
    post: ServerState<P, R>,
    action: ServerAction<P, R>,
    outcome: bool,
) -> bool {
    if pre.phase is Idle {
        outcome
    } else {
        post == pre && action is Ignore
    }
}

/// What an inbound frame leads to: it is routed by its first byte.
pub open spec fn received_step<P, R>(
    pre: ServerState<P, R>,
    b: Seq<u8>,
    keys: StaticKeys,
    draw: Option<[u8; 32]>,
    post: ServerState<P, R>,
    action: ServerAction<P, R>,
) -> bool {
    when_idle(
        pre,
        post,
        action,
        if b.len() == 0 {
            dropped(pre, post, action, HandshakeError::MalformedEnvelope)
        } else if b[0] == MTYPE_EDHOC_1 {
            message1_step(pre, b, keys, draw, post, action)
        } else if b[0] == MTYPE_EDHOC_3 {
            message3_step(pre, b, post, action)
        } else if b[0] == MTYPE_UPLINK || b[0] == MTYPE_DH_REQUEST {
            ratchet_frame_step(pre, b, post, action)
        } else {
            dropped(pre, post, action, HandshakeError::UnexpectedMessage)
        },
    )
}

/// What message 2 from the core leads to: the device gets the first free
/// address of the draw and its handshake is entered as pending; message 2
/// goes out under that address.
pub open spec fn message2_step<P, R>(
    pre: ServerState<P, R>,
    m: Seq<u8>,
    receiver: P,
    draw: Option<[u8; 32]>,
    post: ServerState<P, R>,
    action: ServerAction<P, R>,
) -> bool {
    if !(pre.phase is HandlingMsg1) {
        post == pre && action is Ignore
    } else {
        match draw {
            None => dropped(pre, post, action, HandshakeError::NoEntropy),
            Some(bytes) => match first_free(pre.sessions, bytes@) {
                None => dropped(pre, post, action, HandshakeError::DuplicateDevaddr),
                Some(a) => {
                    &&& post.phase is Idle
                    &&& post.max_pending == pre.max_pending
                    &&& post.fcnt_down == next_fcnt(pre.fcnt_down)
                    &&& post.sessions.len() > 0
                    &&& post.sessions.drop_last() == with_room(
                        pre.sessions,
                        pre.max_pending,
                    )
                    &&& post.sessions.last().devaddr@ == a
                    &&& post.sessions.last().slot == Slot::<P, R>::Pending(receiver)
                    &&& post.sessions.last().recv_count == 0
                    &&& action matches ServerAction::Transmit(frame)
                    &&& frame@ == encode(m, MTYPE_EDHOC_2, pre.fcnt_down, a, false)
                },
            },
        }
    }
}

/// What the device's key identifier `kid` leads to: the device's key is
/// looked up in the directory, and the handshake is given up if it is not
/// there.
pub open spec fn kid_step<P, R>(
    pre: ServerState<P, R>,
    kid: Seq<u8>,
    keys: StaticKeys,
    post: ServerState<P, R>,
    action: ServerAction<P, R>,
) -> bool {
    match pre.phase {
        ServerPhase::UnpackingMsg3 { devaddr } => match lookup(keys.directory(), kid) {
            Some(key) => {
                &&& moved_to(pre, post, ServerPhase::VerifyingMsg3 { devaddr })
                &&& action matches ServerAction::VerifyMessage3(k)
                &&& k@ == key
            },
            None => dropped(pre, post, action, HandshakeError::UnknownPeerKid),
        },
        _ => post == pre && action is Ignore,
    }
}

/// What message 4 and the session secrets lead to: message 4 goes out
/// under the device's address and the ratchet is asked for. The server
/// holds the secrets from its own side.
pub open spec fn message4_step<P, R>(
    pre: ServerState<P, R>,
    m: Seq<u8>,
    send_chain: Seq<u8>,
    recv_chain: Seq<u8>,
    root: Seq<u8>,
    post: ServerState<P, R>,
    action: ServerAction<P, R>,
) -> bool {
    match pre.phase {
        ServerPhase::VerifyingMsg3 { devaddr } => if key_lengths_ok(send_chain, recv_chain, root) {
            &&& post.phase == (ServerPhase::CreatingRatchet { devaddr })
            &&& registry_kept(pre, post)
            &&& post.fcnt_down == next_fcnt(pre.fcnt_down)
            &&& action matches ServerAction::InstallRatchet { frame, keys }
            &&& frame@ == encode(m, MTYPE_EDHOC_4, pre.fcnt_down, devaddr@, false)
            &&& keys.send_chain_key@ == send_chain
            &&& keys.recv_chain_key@ == recv_chain
            &&& keys.root_key@ == root
            &&& keys.devaddr@ == devaddr@
        } else {
            dropped(pre, post, action, HandshakeError::InvalidKeyMaterial)
        },
        _ => post == pre && action is Ignore,
    }
}

/// What the new ratchet leads to: it is entered under the device's
/// address, the counter at the two handshake uplinks.
pub open spec fn ratchet_ready_step<P, R>(
    pre: ServerState<P, R>,
    ratchet: R,
    post: ServerState<P, R>,
    action: ServerAction<P, R>,
) -> bool {
    match pre.phase {
        ServerPhase::CreatingRatchet { devaddr } => {
            &&& post.phase is Idle
            &&& post.sessions == pre.sessions.push(
                (Entry { devaddr, slot: Slot::Ratcheting(ratchet), recv_count: HANDSHAKE_UPLINKS }),
            )
            &&& post.max_pending == pre.max_pending
            &&& post.fcnt_down == pre.fcnt_down
            &&& action is Listen
        },
        _ => post == pre && action is Ignore,
    }
}

/// What the ratchet's verdict on a frame leads to: the ratchet is put
/// back; an accepted frame is counted, and the reply goes out if the
/// ratchet asked for that.
pub open spec fn ratchet_done_step<P, R>(
    pre: ServerState<P, R>,
    ratchet: R,
    accepted: bool,
    reply: Seq<u8>,
    send_flag: bool,
    post: ServerState<P, R>,
    action: ServerAction<P, R>,
) -> bool {
    match pre.phase {
        ServerPhase::Ratcheting { devaddr } => {
            let i = index_of(pre.sessions, devaddr@);
            let line = pre.sessions[i];
            &&& post.phase is Idle
            &&& post.sessions == pre.sessions.update(
                i,
                (Entry {
                    devaddr: line.devaddr,
                    slot: Slot::Ratcheting(ratchet),
                    recv_count: if accepted {
                        next_count(line.recv_count)
                    } else {
                        line.recv_count
                    },
                }),
            )
            &&& post.max_pending == pre.max_pending
            &&& post.fcnt_down == pre.fcnt_down
            &&& if accepted && send_flag {
                action matches ServerAction::Transmit(frame) && frame@ == reply
            } else {
                action is Listen
            }
        },
        _ => post == pre && action is Ignore,
    }
}

/// What a fault of the core leads to: the handshake in hand is given up.
/// An error message of our own side is owed to the peer.
pub open spec fn fault_step<P, R>(
    pre: ServerState<P, R>,
    fault: CoreError,
    post: ServerState<P, R>,
    action: ServerAction<P, R>,
) -> bool {
    if pre.phase is HandlingMsg1 || pre.phase is UnpackingMsg3 || pre.phase is VerifyingMsg3 {
        &&& moved_to(pre, post, ServerPhase::Idle)
        &&& match reply_owed(fault) {
            Some(bytes) => action matches ServerAction::SendError(b) && b@ == bytes,
            None => action matches ServerAction::Drop(e) && reports(e, fault),
        }
    } else {
        post == pre && action is Ignore
    }
}

/// The step of the dispatcher: from `pre`, told `event`, to `post` with
/// `action` asked of the caller. `draw` is what the operating system gave
/// for random bytes, if it gave any.
pub open spec fn server_step<P, R>(
    pre: ServerState<P, R>,
    event: ServerEvent<P, R>,
    keys: StaticKeys,
    draw: Option<[u8; 32]>,
    post: ServerState<P, R>,
    action: ServerAction<P, R>,
) -> bool {
    match event {
        ServerEvent::Received(bytes) => received_step(pre, bytes@, keys, draw, post, action),
        ServerEvent::Message2 { message, receiver } => message2_step(
            pre,
            message@,
            receiver,
            draw,
            post,
            action,
        ),
        ServerEvent::PeerKid(kid) => kid_step(pre, kid@, keys, post, action),
        ServerEvent::Message4 { message, send_chain, recv_chain, root } => message4_step(
            pre,
            message@,
            send_chain@,
            recv_chain@,
            root@,
            post,
            action,
        ),
        ServerEvent::RatchetReady(ratchet) => ratchet_ready_step(pre, ratchet, post, action),
        ServerEvent::RatchetAccepted { ratchet, reply, send_flag } => ratchet_done_step(
            pre,
            ratchet,
            true,
            reply@,
            send_flag,
            post,
            action,
        ),
        ServerEvent::RatchetRefused { ratchet } => ratchet_done_step(
            pre,
            ratchet,
            false,
            Seq::<u8>::empty(),
            false,
            post,
            action,
        ),
        ServerEvent::CoreFault(fault) => fault_step(pre, fault, post, action),
    }
}

impl<P, R> View for Dispatcher<P, R> {
    type V = ServerState<P, R>;

    closed spec fn view(&self) -> ServerState<P, R> {
        ServerState {
            phase: self.phase,
            sessions: self.registry@,
            max_pending: self.registry.max_pending(),
            fcnt_down: self.fcnt_down@,
        }
    }
}

impl<P, R> Dispatcher<P, R> {
    /// Every dispatcher is well-formed at all times.
    #[verifier::type_invariant]
    spec fn inv(&self) -> bool {
        self@.wf()
    }

    /// An idle dispatcher with an empty registry that keeps `max_pending`
    /// pending handshakes, and one at least.
    pub fn new(max_pending: usize) -> (dispatcher: Dispatcher<P, R>)
        ensures
            dispatcher@.wf(),
            dispatcher@ == (ServerState::<P, R> {
                phase: ServerPhase::Idle,
                sessions: Seq::empty(),
                max_pending,
                fcnt_down: 0,
            }),
    {
        Dispatcher {
            phase: ServerPhase::Idle,
            registry: SessionRegistry::new(max_pending),
            fcnt_down: FrameCounter::new(),
        }
    }

    /// An idle dispatcher over the sessions of `registry`, its counter at
    /// zero.
    pub fn with_registry(registry: SessionRegistry<P, R>) -> (dispatcher: Dispatcher<P, R>)
        ensures
            dispatcher@.wf(),
            dispatcher@ == (ServerState::<P, R> {
                phase: ServerPhase::Idle,
                sessions: registry@,
                max_pending: registry.max_pending(),
                fcnt_down: 0,
            }),
    {
        proof {
            use_type_invariant(&registry);
        }
        Dispatcher { phase: ServerPhase::Idle, registry, fcnt_down: FrameCounter::new() }
    }

    /// Gives the sessions up; the dispatcher is no more.
    pub fn into_registry(self) -> (registry: SessionRegistry<P, R>)
        ensures
            registry@ == self@.sessions,
            registry.max_pending() == self@.max_pending,
    {
        self.registry
    }

    /// What the dispatcher is busy with.
    pub fn phase(&self) -> (phase: ServerPhase)
        ensures
            phase == self@.phase,
    {
        self.phase
    }

    /// The sessions, for reading.
    pub fn registry(&self) -> (registry: &SessionRegistry<P, R>)
        ensures
            registry@ == self@.sessions,
            registry.max_pending() == self@.max_pending,
    {
        &self.registry
    }

    /// The number that the next handshake frame will carry.
    pub fn fcnt_down(&self) -> (next: u16)
        ensures
            next == self@.fcnt_down,
    {
        self.fcnt_down.value()
    }

    /// Whether the dispatcher is idle.
    pub fn is_idle(&self) -> (idle: bool)
        ensures
            idle == (self@.phase is Idle),
    {
        match self.phase {
            ServerPhase::Idle => true,
            _ => false,
        }
    }

    /// Takes the registry out of an idle dispatcher for a change, and
    /// leaves an empty one in its place.
    fn lend_registry(&mut self) -> (registry: SessionRegistry<P, R>)
        requires
            old(self).phase is Idle,
        ensures
            registry@ == old(self)@.sessions,
            registry.max_pending() == old(self)@.max_pending,
            registry.wf(),
            final(self).phase is Idle,
            final(self).fcnt_down == old(self).fcnt_down,
    {
        proof {
            use_type_invariant(&*self);
        }
        let mut registry: SessionRegistry<P, R> = SessionRegistry::new(0);
        std::mem::swap(&mut registry, &mut self.registry);
        registry
    }

    /// The first of the eight addresses in `draw` that has no entry.
    pub fn pick_devaddr(&self, draw: &[u8; 32]) -> (devaddr: Option<[u8; 4]>)
        ensures
            devaddr is Some <==> first_free(self@.sessions, draw@) is Some,
            devaddr matches Some(a) ==> first_free(self@.sessions, draw@) == Some(a@) && !holds(
                self@.sessions,
                a@,
            ),
    {
        let mut k: usize = 0;
        while k < DEVADDR_DRAWS
            invariant
                k <= DEVADDR_DRAWS,
                first_free(self.registry@, draw@) == first_free_from(
                    self.registry@,
                    draw@,
                    k as nat,
                ),
            decreases DEVADDR_DRAWS - k,
        {
            let devaddr: [u8; 4] = devaddr_at(draw.as_slice(), 4 * k);
            if !self.registry.contains(&devaddr) {
                return Some(devaddr);
            }
            k = k + 1;
        }
        None
    }

    /// Takes a frame of type 0, message 1 of a new device: the core is to
    /// be started with the fresh secret `ephemeral` and given the payload.
    pub fn handle_m_type_zero(
        &mut self,
        buffer: Vec<u8>,
        keys: &StaticKeys,
        ephemeral: Option<[u8; 32]>,
    ) -> (action: ServerAction<P, R>)
        ensures
            final(self)@.wf(),
            when_idle(
                old(self)@,
                final(self)@,
                action,
                message1_step(old(self)@, buffer@, *keys, ephemeral, final(self)@, action),
            ),
    {
        proof {
            use_type_invariant(&*self);
        }
        if !self.is_idle() {
            return ServerAction::Ignore;
        }
        if buffer.len() < 3 {
            return ServerAction::Drop(HandshakeError::MalformedEnvelope);
        }
        match ephemeral {
            None => ServerAction::Drop(HandshakeError::NoEntropy),
            Some(secret) => {
                let mut kid: Vec<u8> = Vec::new();
                kid.push(AS_KID);
                assert(kid@ =~= seq![AS_KID]);
                let setup = ResponderSetup {
                    ephemeral_secret: secret,
                    static_secret: keys.as_static_material,
                    static_public: x25519_public_key(&keys.as_static_material),
                    kid,
                };
                self.phase = ServerPhase::HandlingMsg1;
                ServerAction::HandleMessage1 { payload: unpack_edhoc_first_message(buffer), setup }
            },
        }
    }

    /// Takes a frame of type 2, message 3: the pending handshake of its
    /// address leaves the registry and is given the payload.
    pub fn handle_m_type_two(&mut self, buffer: Vec<u8>) -> (action: ServerAction<P, R>)
        ensures
            final(self)@.wf(),
            when_idle(
                old(self)@,
                final(self)@,
                action,
                message3_step(old(self)@, buffer@, final(self)@, action),
            ),
    {
        proof {
            use_type_invariant(&*self);
        }
        if !self.is_idle() {
            return ServerAction::Ignore;
        }
        if buffer.len() < 7 {
            return ServerAction::Drop(HandshakeError::MalformedEnvelope);
        }
        let (payload, devaddr) = unpack_edhoc_message(buffer);
        let mut registry = self.lend_registry();
        let taken = registry.take_pending(&devaddr);
        self.registry = registry;
        match taken {
            Ok(receiver) => {
                self.phase = ServerPhase::UnpackingMsg3 { devaddr };
                ServerAction::UnpackMessage3 { receiver, payload }
            },
            Err(_) => ServerAction::Drop(HandshakeError::UnknownDevaddr),
        }
    }

    /// Takes a frame of the ratchet layer: the ratchet of its address is
    /// lent out and given the frame.
    pub fn handle_ratchet_message(&mut self, buffer: Vec<u8>) -> (action: ServerAction<P, R>)
        ensures
            final(self)@.wf(),
            when_idle(
                old(self)@,
                final(self)@,
                action,
                ratchet_frame_step(old(self)@, buffer@, final(self)@, action),
            ),
    {
        proof {
            use_type_invariant(&*self);
        }
        if !self.is_idle() {
            return ServerAction::Ignore;
        }
        if buffer.len() < RATCHET_MIN_LEN {
            return ServerAction::Drop(HandshakeError::MalformedEnvelope);
        }
        let devaddr: [u8; 4] = devaddr_at(buffer.as_slice(), RATCHET_DEVADDR_AT);
        let mut registry = self.lend_registry();
        let ghost before = registry@;
        let taken = registry.take_ratchet(&devaddr);
        proof {
            if taken is Ok {
                let i = index_of(before, devaddr@);
                assert(registry@[i].devaddr@ == devaddr@);
                crate::registry::lemma_index_of(registry@, i);
            }
        }
        self.registry = registry;
        match taken {
            Ok(ratchet) => {
                self.phase = ServerPhase::Ratcheting { devaddr };
                ServerAction::Receive { ratchet, frame: buffer }
            },
            Err(_) => ServerAction::Drop(HandshakeError::UnknownDevaddr),
        }
    }

    /// Takes an inbound frame and routes it by its first byte. `ephemeral`
    /// is a fresh secret for the case that the frame opens a handshake.
    pub fn on_received(&mut self, bytes: Vec<u8>, keys: &StaticKeys, ephemeral: Option<[u8; 32]>) -> (action:
        ServerAction<P, R>)
        ensures
            final(self)@.wf(),
            received_step(old(self)@, bytes@, *keys, ephemeral, final(self)@, action),
    {
        proof {
            use_type_invariant(&*self);
        }
        if !self.is_idle() {
            return ServerAction::Ignore;
        }
        if bytes.len() == 0 {
            return ServerAction::Drop(HandshakeError::MalformedEnvelope);
        }
        let mtype: u8 = bytes[0];
        if mtype == MTYPE_EDHOC_1 {
            self.handle_m_type_zero(bytes, keys, ephemeral)
        } else if mtype == MTYPE_EDHOC_3 {
            self.handle_m_type_two(bytes)
        } else if mtype == MTYPE_UPLINK || mtype == MTYPE_DH_REQUEST {
            self.handle_ratchet_message(bytes)
        } else {
            ServerAction::Drop(HandshakeError::UnexpectedMessage)
        }
    }

    /// Takes message 2 from the core. `draw` holds the random addresses to
    /// choose from.
    pub fn on_message2(&mut self, message: Vec<u8>, receiver: P, draw: Option<[u8; 32]>) -> (action:
        ServerAction<P, R>)
        ensures
            final(self)@.wf(),
            message2_step(old(self)@, message@, receiver, draw, final(self)@, action),
    {
        proof {
            use_type_invariant(&*self);
        }
        let handling: bool = match self.phase {
            ServerPhase::HandlingMsg1 => true,
            _ => false,
        };
        if !handling {
            return ServerAction::Ignore;
        }
        self.phase = ServerPhase::Idle;
        let bytes: [u8; 32] = match draw {
            Some(bytes) => bytes,
            None => {
                return ServerAction::Drop(HandshakeError::NoEntropy);
            },
        };
        let devaddr: [u8; 4] = match self.pick_devaddr(&bytes) {
            Some(devaddr) => devaddr,
            None => {
                return ServerAction::Drop(HandshakeError::DuplicateDevaddr);
            },
        };
        let mut registry = self.lend_registry();
        let entered = registry.insert_pending(devaddr, receiver);
        assert(entered is Ok);
        assert(registry@.drop_last() =~= with_room(old(self)@.sessions, old(self)@.max_pending));
        self.registry = registry;
        let mut counter: FrameCounter = self.fcnt_down;
        let frame: Vec<u8> = prepare_message(message, MTYPE_EDHOC_2, false, devaddr, &mut counter);
        self.fcnt_down = counter;
        ServerAction::Transmit(frame)
    }

    /// Takes the key identifier that the core found in message 3 and picks
    /// the device's static key from the directory.
    pub fn on_peer_kid(&mut self, kid: Vec<u8>, keys: &StaticKeys) -> (action: ServerAction<P, R>)
        ensures
            final(self)@.wf(),
            kid_step(old(self)@, kid@, *keys, final(self)@, action),
    {
        proof {
            use_type_invariant(&*self);
        }
        let unpacking: Option<[u8; 4]> = match self.phase {
            ServerPhase::UnpackingMsg3 { devaddr } => Some(devaddr),
            _ => None,
        };
        match unpacking {
            Some(devaddr) => match keys.peer_key(kid.as_slice()) {
                Some(key) => {
                    self.phase = ServerPhase::VerifyingMsg3 { devaddr };
                    ServerAction::VerifyMessage3(key)
                },
                None => {
                    self.phase = ServerPhase::Idle;
                    ServerAction::Drop(HandshakeError::UnknownPeerKid)
                },
            },
            None => ServerAction::Ignore,
        }
    }

    /// Takes message 4 and the session secrets from the core.
    pub fn on_message4(
        &mut self,
        message: Vec<u8>,
        send_chain: Vec<u8>,
        recv_chain: Vec<u8>,
        root: Vec<u8>,
    ) -> (action: ServerAction<P, R>)
        ensures
            final(self)@.wf(),
            message4_step(
                old(self)@,
                message@,
                send_chain@,
                recv_chain@,
                root@,
                final(self)@,
                action,
            ),
    {
        proof {
            use_type_invariant(&*self);
        }
        let verifying: Option<[u8; 4]> = match self.phase {
            ServerPhase::VerifyingMsg3 { devaddr } => Some(devaddr),
            _ => None,
        };
        match verifying {
            Some(devaddr) => match SessionKeys::from_parts(
                send_chain.as_slice(),
                recv_chain.as_slice(),
                root.as_slice(),
                devaddr,
            ) {
                Some(keys) => {
                    let mut counter: FrameCounter = self.fcnt_down;
                    let frame: Vec<u8> = prepare_message(
                        message,
                        MTYPE_EDHOC_4,
                        false,
                        devaddr,
                        &mut counter,
                    );
                    self.fcnt_down = counter;
                    self.phase = ServerPhase::CreatingRatchet { devaddr };
                    ServerAction::InstallRatchet { frame, keys }
                },
                None => {
                    self.phase = ServerPhase::Idle;
                    ServerAction::Drop(HandshakeError::InvalidKeyMaterial)
                },
            },
            None => ServerAction::Ignore,
        }
    }

    /// Takes the ratchet that was made for the device in hand.
    pub fn on_ratchet_ready(&mut self, ratchet: R) -> (action: ServerAction<P, R>)
        ensures
            final(self)@.wf(),
            ratchet_ready_step(old(self)@, ratchet, final(self)@, action),
    {
        proof {
            use_type_invariant(&*self);
        }
        let creating: Option<[u8; 4]> = match self.phase {
            ServerPhase::CreatingRatchet { devaddr } => Some(devaddr),
            _ => None,
        };
        match creating {
            Some(devaddr) => {
                self.phase = ServerPhase::Idle;
                let mut registry = self.lend_registry();
                let entered = registry.install_ratchet(devaddr, ratchet);
                assert(entered is Ok);
                self.registry = registry;
                ServerAction::Listen
            },
            None => ServerAction::Ignore,
        }
    }

    /// Takes the ratchet back with its verdict on the frame.
    pub fn on_ratchet_done(&mut self, ratchet: R, accepted: bool, reply: Vec<u8>, send_flag: bool) -> (action:
        ServerAction<P, R>)
        ensures
            final(self)@.wf(),
            ratchet_done_step(
                old(self)@,
                ratchet,
                accepted,
                reply@,
                send_flag,
                final(self)@,
                action,
            ),
    {
        proof {
            use_type_invariant(&*self);
        }
        let ratcheting: Option<[u8; 4]> = match self.phase {
            ServerPhase::Ratcheting { devaddr } => Some(devaddr),
            _ => None,
        };
        let devaddr: [u8; 4] = match ratcheting {
            Some(devaddr) => devaddr,
            None => {
                return ServerAction::Ignore;
            },
        };
        self.phase = ServerPhase::Idle;
        let mut registry = self.lend_registry();
        let ghost before = registry@;
        let ghost i = index_of(before, devaddr@);
        let put = registry.put_back(&devaddr, ratchet);
        assert(put is Ok);
        let ghost between = registry@;
        proof {
            assert(between[i].devaddr@ == devaddr@);
            crate::registry::lemma_index_of(between, i);
        }
        if accepted {
            let counted = registry.bump_recv(&devaddr);
            assert(counted is Ok);
            assert(registry@ =~= before.update(
                i,
                (Entry {
                    devaddr: before[i].devaddr,
                    slot: Slot::Ratcheting(ratchet),
                    recv_count: next_count(before[i].recv_count),
                }),
            ));
        } else {
            assert(registry@ =~= before.update(
                i,
                (Entry {
                    devaddr: before[i].devaddr,
                    slot: Slot::Ratcheting(ratchet),
                    recv_count: before[i].recv_count,
                }),
            ));
        }
        self.registry = registry;
        if accepted && send_flag {
            ServerAction::Transmit(reply)
        } else {
            ServerAction::Listen
        }
    }

    /// Takes a fault of the core.
    pub fn on_core_fault(&mut self, fault: CoreError) -> (action: ServerAction<P, R>)
        ensures
            final(self)@.wf(),
            fault_step(old(self)@, fault, final(self)@, action),
    {
        proof {
            use_type_invariant(&*self);
        }
        let in_handshake: bool = match self.phase {
            ServerPhase::HandlingMsg1 => true,
            ServerPhase::UnpackingMsg3 { .. } => true,
            ServerPhase::VerifyingMsg3 { .. } => true,
            _ => false,
        };
        if !in_handshake {
            return ServerAction::Ignore;
        }
        self.phase = ServerPhase::Idle;
        let (error, reply) = fault.settle();
        match reply {
            Some(bytes) => ServerAction::SendError(bytes),
            None => ServerAction::Drop(error),
        }
    }

    /// One step of the dispatcher with the random bytes `draw` at hand:
    /// takes `event` and says what to do next.
    pub fn step_with(&mut self, event: ServerEvent<P, R>, keys: &StaticKeys, draw: Option<[u8; 32]>) -> (action:
        ServerAction<P, R>)
        ensures
            final(self)@.wf(),
            server_step(old(self)@, event, *keys, draw, final(self)@, action),
    {
        match event {
            ServerEvent::Received(bytes) => self.on_received(bytes, keys, draw),
            ServerEvent::Message2 { message, receiver } => self.on_message2(
                message,
                receiver,
                draw,
            ),
            ServerEvent::PeerKid(kid) => self.on_peer_kid(kid, keys),
            ServerEvent::Message4 { message, send_chain, recv_chain, root } => self.on_message4(
                message,
                send_chain,
                recv_chain,
                root,
            ),
            ServerEvent::RatchetReady(ratchet) => self.on_ratchet_ready(ratchet),
            ServerEvent::RatchetAccepted { ratchet, reply, send_flag } => self.on_ratchet_done(
                ratchet,
                true,
                reply,
                send_flag,
            ),
            ServerEvent::RatchetRefused { ratchet } => self.on_ratchet_done(
                ratchet,
                false,
                Vec::new(),
                false,
            ),
            ServerEvent::CoreFault(fault) => self.on_core_fault(fault),
        }
    }

    /// One step of the dispatcher: takes `event` and says what to do next.
    /// Random bytes are drawn from the operating system where the event
    /// calls for them: a fresh secret for a new handshake, fresh addresses
    /// for a new device.
    pub fn step(&mut self, event: ServerEvent<P, R>, keys: &StaticKeys) -> (action: ServerAction<
        P,
        R,
    >)
        ensures
            final(self)@.wf(),
            exists|draw: Option<[u8; 32]>|
                server_step(old(self)@, event, *keys, draw, final(self)@, action),
    {
        let wanted: bool = match &event {
            ServerEvent::Received(bytes) => bytes.len() > 0 && bytes[0] == MTYPE_EDHOC_1,
            ServerEvent::Message2 { .. } => true,
            _ => false,
        };
        let draw: Option<[u8; 32]> = if wanted {
            fresh_key()
        } else {
            None
        };
        self.step_with(event, keys, draw)
    }
}

/// The address that a new device is given is one that no session had, and
/// the registry holds it afterwards, with the pending handshake. Message 2
/// carries that address.
pub proof fn lemma_assigned_address_is_new<P, R>(
    pre: ServerState<P, R>,
    m: Seq<u8>,
    receiver: P,
    draw: Option<[u8; 32]>,
    post: ServerState<P, R>,
    action: ServerAction<P, R>,
)
    requires
        pre.wf(),
        post.wf(),
        message2_step(pre, m, receiver, draw, post, action),
        action is Transmit,
    ensures
        !holds(pre.sessions, decode(action->Transmit_0@, false).devaddr),
        holds(post.sessions, decode(action->Transmit_0@, false).devaddr),
        post.sessions[index_of(post.sessions, decode(action->Transmit_0@, false).devaddr)].slot
            == Slot::<P, R>::Pending(receiver),
{
    let bytes = draw->Some_0;
    lemma_first_free(pre.sessions, bytes@, 0);
    let a = first_free(pre.sessions, bytes@)->Some_0;
    crate::envelope::lemma_decode_encode(m, MTYPE_EDHOC_2, pre.fcnt_down, a, false);
    let last = post.sessions.len() - 1;
    assert(post.sessions[last].devaddr@ == a);
    crate::registry::lemma_index_of(post.sessions, last);
}

/// An address that the draw yields is four bytes long and is not held.
pub proof fn lemma_first_free<P, R>(s: Seq<Entry<P, R>>, draw: Seq<u8>, k: nat)
    requires
        draw.len() == 32,
    ensures
        first_free_from(s, draw, k) matches Some(a) ==> a.len() == 4 && !holds(s, a),
    decreases DEVADDR_DRAWS - k,
{
    if k < DEVADDR_DRAWS && holds(s, candidate(draw, k as int)) {
        lemma_first_free(s, draw, k + 1);
    }
}

/// The server's counter moves exactly when a handshake frame is handed
/// out, message 2 or message 4: that frame carries the counter as it
/// stood, and the counter is one further, modulo 65536. Every other step,
/// replies of a ratchet and error messages among them, leaves the counter
/// alone.
pub proof fn lemma_step_counts_frames<P, R>(
    pre: ServerState<P, R>,
    event: ServerEvent<P, R>,
    keys: StaticKeys,
    draw: Option<[u8; 32]>,
    post: ServerState<P, R>,
    action: ServerAction<P, R>,
)
    requires
        server_step(pre, event, keys, draw, post, action),
    ensures
        event is Message2 && action is Transmit ==> {
            &&& action->Transmit_0@.len() >= 7
            &&& decode(action->Transmit_0@, false).fcnt == pre.fcnt_down
            &&& post.fcnt_down as int == (pre.fcnt_down as int + 1) % 65536
        },
        action is InstallRatchet ==> {
            &&& action->InstallRatchet_frame@.len() >= 7
            &&& decode(action->InstallRatchet_frame@, false).fcnt == pre.fcnt_down
            &&& post.fcnt_down as int == (pre.fcnt_down as int + 1) % 65536
        },
        !(event is Message2 && action is Transmit) && !(action is InstallRatchet)
            ==> post.fcnt_down == pre.fcnt_down,
{
    match event {
        ServerEvent::Message2 { message, receiver } => {
            if action is Transmit {
                let bytes = draw->Some_0;
                lemma_first_free(pre.sessions, bytes@, 0);
                let a = first_free(pre.sessions, bytes@)->Some_0;
                crate::envelope::lemma_decode_encode(
                    message@,
                    MTYPE_EDHOC_2,
                    pre.fcnt_down,
                    a,
                    false,
                );
            }
        },
        ServerEvent::Message4 { message, send_chain, recv_chain, root } => {
            if action is InstallRatchet {
                let devaddr = pre.phase->VerifyingMsg3_devaddr;
                crate::envelope::lemma_decode_encode(
                    message@,
                    MTYPE_EDHOC_4,
                    pre.fcnt_down,
                    devaddr@,
                    false,
                );
            }
        },
        _ => {},
    }
}

/// Whether `s` holds `devaddr` with a ratchet, at rest or lent.
pub open spec fn has_session<P, R>(s: Seq<Entry<P, R>>, devaddr: Seq<u8>) -> bool {
    holds(s, devaddr) && !(s[index_of(s, devaddr)].slot is Pending)
}

/// A line with a ratchet stays through the removal of another line.
proof fn lemma_session_after_remove<P, R>(s: Seq<Entry<P, R>>, i: int, devaddr: Seq<u8>)
    requires
        crate::registry::distinct(s),
        has_session(s, devaddr),
        0 <= i < s.len(),
        s[i].slot is Pending,
        crate::registry::distinct(s.remove(i)),
    ensures
        has_session(s.remove(i), devaddr),
{
    let k = index_of(s, devaddr);
    let t = s.remove(i);
    let j = if k < i {
        k
    } else {
        k - 1
    };
    assert(t[j] == s[k]);
    crate::registry::lemma_index_of(t, j);
}

/// A line with a ratchet stays when a line is added at the end.
proof fn lemma_session_after_push<P, R>(s: Seq<Entry<P, R>>, e: Entry<P, R>, devaddr: Seq<u8>)
    requires
        has_session(s, devaddr),
        crate::registry::distinct(s.push(e)),
    ensures
        has_session(s.push(e), devaddr),
{
    let k = index_of(s, devaddr);
    let t = s.push(e);
    assert(t[k] == s[k]);
    crate::registry::lemma_index_of(t, k);
}

/// A line with a ratchet stays when a line is replaced by one of the same
/// address that is not pending.
proof fn lemma_session_after_update<P, R>(
    s: Seq<Entry<P, R>>,
    i: int,
    e: Entry<P, R>,
    devaddr: Seq<u8>,
)
    requires
        has_session(s, devaddr),
        0 <= i < s.len(),
        e.devaddr@ == s[i].devaddr@,
        !(e.slot is Pending),
        crate::registry::distinct(s.update(i, e)),
    ensures
        has_session(s.update(i, e), devaddr),
{
    let k = index_of(s, devaddr);
    let t = s.update(i, e);
    assert(t[k].devaddr@ == devaddr);
    crate::registry::lemma_index_of(t, k);
}

/// A session that has its ratchet is never lost: whatever the dispatcher
/// is told, the address is in the registry afterwards, and with a ratchet.
/// Neither the eviction of pending handshakes nor a fault on another
/// device's frame touches it.
pub proof fn lemma_sessions_persist<P, R>(
    pre: ServerState<P, R>,
    event: ServerEvent<P, R>,
    keys: StaticKeys,
    draw: Option<[u8; 32]>,
    post: ServerState<P, R>,
    action: ServerAction<P, R>,
    devaddr: Seq<u8>,
)
    requires
        pre.wf(),
        post.wf(),
        server_step(pre, event, keys, draw, post, action),
        has_session(pre.sessions, devaddr),
    ensures
        has_session(post.sessions, devaddr),
{
    let s = pre.sessions;
    if post.sessions == s {
    } else {
        match event {
            ServerEvent::Received(bytes) => {
                let b = bytes@;
                if b[0] == MTYPE_EDHOC_3 {
                    let i = index_of(s, decode(b, false).devaddr);
                    lemma_session_after_remove(s, i, devaddr);
                } else {
                    let i = index_of(s, ratchet_devaddr(b));
                    lemma_session_after_update(s, i, with_slot(s[i], Slot::Lent), devaddr);
                }
            },
            ServerEvent::Message2 { message, receiver } => {
                let room = with_room(s, pre.max_pending);
                let t = post.sessions;
                assert(t =~= room.push(t.last()));
                assert(crate::registry::distinct(room)) by {
                    assert forall|i: int, j: int| 0 <= i < j < room.len() implies (
                    #[trigger] room[i]).devaddr@ != (#[trigger] room[j]).devaddr@ by {
                        assert(room[i] == t[i] && room[j] == t[j]);
                    }
                }
                if room != s {
                    let i = crate::registry::oldest_pending(s);
                    assert(crate::registry::pending_count(s) > 0);
                    lemma_some_pending(s);
                    lemma_session_after_remove(s, i, devaddr);
                }
                lemma_session_after_push(room, t.last(), devaddr);
            },
            ServerEvent::RatchetReady(ratchet) => {
                let devaddr_in_hand = pre.phase->CreatingRatchet_devaddr;
                lemma_session_after_push(
                    s,
                    (Entry {
                        devaddr: devaddr_in_hand,
                        slot: Slot::Ratcheting(ratchet),
                        recv_count: HANDSHAKE_UPLINKS,
                    }),
                    devaddr,
                );
            },
            ServerEvent::RatchetAccepted { ratchet, reply, send_flag } => {
                let i = index_of(s, pre.phase->Ratcheting_devaddr@);
                lemma_session_after_update(
                    s,
                    i,
                    (Entry {
                        devaddr: s[i].devaddr,
                        slot: Slot::Ratcheting(ratchet),
                        recv_count: next_count(s[i].recv_count),
                    }),
                    devaddr,
                );
            },
            ServerEvent::RatchetRefused { ratchet } => {
                let i = index_of(s, pre.phase->Ratcheting_devaddr@);
                lemma_session_after_update(
                    s,
                    i,
                    (Entry {
                        devaddr: s[i].devaddr,
                        slot: Slot::Ratcheting(ratchet),
                        recv_count: s[i].recv_count,
                    }),
                    devaddr,
                );
            },
            _ => {},
        }
    }
}

/// Where pending handshakes are counted, there is an oldest one.
proof fn lemma_some_pending<P, R>(s: Seq<Entry<P, R>>)
    requires
        crate::registry::pending_count(s) > 0,
    ensures
        crate::registry::is_oldest_pending(s, crate::registry::oldest_pending(s)),
    decreases s.len(),
{
    let front = s.drop_last();
    if crate::registry::pending_count(front) > 0 {
        lemma_some_pending(front);
        let i = crate::registry::oldest_pending(front);
        assert(front[i] == s[i]);
        assert forall|j: int| 0 <= j < i implies !((#[trigger] s[j]).slot is Pending) by {
            assert(front[j] == s[j]);
        }
        assert(crate::registry::is_oldest_pending(s, i));
    } else {
        let i = s.len() - 1;
        assert(s[i].slot is Pending);
        if exists|j: int| 0 <= j < i && (#[trigger] s[j]).slot is Pending {
            let j = choose|j: int| 0 <= j < i && (#[trigger] s[j]).slot is Pending;
            lemma_pending_counted(front, j);
        }
        assert(crate::registry::is_oldest_pending(s, i));
    }
}

/// A pending handshake is counted.
proof fn lemma_pending_counted<P, R>(s: Seq<Entry<P, R>>, j: int)
    requires
        0 <= j < s.len(),
        s[j].slot is Pending,
    ensures
        crate::registry::pending_count(s) > 0,
    decreases s.len(),
{
    if j < s.len() - 1 {
        assert(s.drop_last()[j] == s[j]);
        lemma_pending_counted(s.drop_last(), j);
    }
}

/// No two sessions of the registry have the same address, before and
/// after every step.
pub proof fn lemma_addresses_unique<P, R>(dispatcher: ServerState<P, R>, i: int, j: int)
    requires
        dispatcher.wf(),
        0 <= i < dispatcher.sessions.len(),
        0 <= j < dispatcher.sessions.len(),
        dispatcher.sessions[i].devaddr@ == dispatcher.sessions[j].devaddr@,
    ensures
        i == j,
{
    if i < j {
        assert(dispatcher.sessions[i].devaddr@ != dispatcher.sessions[j].devaddr@);
    } else if j < i {
        assert(dispatcher.sessions[j].devaddr@ != dispatcher.sessions[i].devaddr@);
    }
}

} // verus!
