//! The ratchet loop of the end device, which follows the handshake.
//!
//! Once per tick the device sends a small random payload through the
//! ratchet, listens for a downlink, asks for a Diffie-Hellman ratchet step
//! when enough uplinks have gone out, and sleeps. The loop is a state
//! machine that neither touches the radio nor runs the ratchet: it is told
//! what happened and answers with what is to be done next.
//!
//! ```text
//! Settling        + slept ......... Encrypt a fresh payload
//! Encrypting      + uplink frame .. Transmit
//! SendingUplink   + sent or not ... Listen
//! ListeningUplink + bytes ......... Absorb; nothing came: decide
//! AbsorbingUplink + absorbed ...... decide
//!     decide: InitiateRatchet if the ratchet's uplink counter has
//!             reached the threshold, else Sleep
//! RequestingDh    + request frame . Transmit
//! SendingDh       + sent .......... Listen; not sent: Sleep
//! ListeningDh     + bytes ......... Absorb; nothing came: Sleep
//! AbsorbingDh     + absorbed ...... Sleep
//! Sleeping        + slept ......... Encrypt a fresh payload
//! ```

use crate::crypto::os_random_bytes;
use crate::device::keys::RatchetKeys;
use crate::error::HandshakeError;
use crate::session::SessionKeys;
use vstd::prelude::*;

verus! {

/// Milliseconds between message 4 and the first uplink.
pub const SETTLE_MILLIS: u64 = 5000;

/// Milliseconds that the device idles between two ticks.
pub const TICK_MILLIS: u64 = 10000;

/// Where the loop stands in its tick.
#[derive(Clone, Copy, Debug, PartialEq, Eq, Structural)]
pub enum RatchetPhase {
    /// The pause after the handshake.
    Settling,
    /// The ratchet encrypts the uplink payload.
    Encrypting,
    /// The uplink is on the air.
    SendingUplink,
    /// The receive windows after the uplink are open.
    ListeningUplink,
    /// The ratchet takes the downlink that followed the uplink.
    AbsorbingUplink,
    /// The ratchet builds the request for a Diffie-Hellman step.
    RequestingDh,
    /// The request is on the air.
    SendingDh,
    /// The receive windows after the request are open.
    ListeningDh,
    /// The ratchet takes the downlink that followed the request.
    AbsorbingDh,
    /// The radio sleeps until the next tick.
    Sleeping,
}

/// What the caller reports to the loop.
#[derive(Clone, Debug, PartialEq, Eq)]
pub enum RatchetEvent {
    /// The delay asked for has passed.
    Slept,
    /// The ratchet has encrypted the payload into this uplink frame.
    Encrypted(Vec<u8>),
    /// The transceiver has sent the frame, or has failed to.
    Sent(bool),
    /// A pair of receive windows has closed; empty when nothing came.
    Received(Vec<u8>),
    /// The ratchet has taken the downlink, whatever it made of it.
    Absorbed,
    /// The ratchet has built this request for a Diffie-Hellman step.
    DhRequest(Vec<u8>),
}

/// What the loop asks of the caller.
#[derive(Clone, Debug, PartialEq, Eq)]
pub enum RatchetAction {
    /// Put the radio to sleep if `radio_sleep` is set, idle for `millis`
    /// milliseconds, report `Slept`.
    Sleep { radio_sleep: bool, millis: u64 },
    /// Have the ratchet encrypt this payload, report `Encrypted`.
    Encrypt([u8; 8]),
    /// Send this frame, report `Sent`.
    Transmit(Vec<u8>),
    /// Open the receive windows, report `Received`.
    Listen,
    /// Hand these bytes to the ratchet, report `Absorbed`.
    Absorb(Vec<u8>),
    /// Have the ratchet build the request for a Diffie-Hellman step, report
    /// `DhRequest`.
    InitiateRatchet,
    /// The event does not belong here; nothing has changed.
    Ignore,
}

/// The ratchet loop of one device.
#[derive(Clone, Copy, Debug, PartialEq, Eq)]
pub struct RatchetLoop {
    pub phase: RatchetPhase,
    /// Number of uplinks after which a Diffie-Hellman step is asked for.
    pub dhr_const: u16,
}

/// The end of a tick: the radio sleeps and the device idles.
pub open spec fn goes_to_sleep(pre: RatchetLoop, post: RatchetLoop, action: RatchetAction) -> bool {
    &&& post == (RatchetLoop { phase: RatchetPhase::Sleeping, dhr_const: pre.dhr_const })
    &&& action == (RatchetAction::Sleep { radio_sleep: true, millis: TICK_MILLIS })
}

/// The loop is in `phase` and asks for `action`; the threshold stays.
pub open spec fn goes_to(
    pre: RatchetLoop,
    post: RatchetLoop,
    phase: RatchetPhase,
    action: RatchetAction,
    asked: RatchetAction,
) -> bool {
    post == (RatchetLoop { phase, dhr_const: pre.dhr_const }) && action == asked
}

/// What is decided once the uplink and its downlink are dealt with: a
/// Diffie-Hellman step is asked for exactly when the ratchet's uplink
/// counter `fcnt_up` has reached the threshold.
pub open spec fn decided(
    pre: RatchetLoop,
    fcnt_up: u16,
    post: RatchetLoop,
    action: RatchetAction,
) -> bool {
    if fcnt_up >= pre.dhr_const {
        goes_to(pre, post, RatchetPhase::RequestingDh, action, RatchetAction::InitiateRatchet)
    } else {
        goes_to_sleep(pre, post, action)
    }
}

/// The start of a tick: a fresh payload goes to the ratchet. Without
/// entropy the tick is passed over.
pub open spec fn tick_begins(
    pre: RatchetLoop,
    payload: Option<[u8; 8]>,
    post: RatchetLoop,
    action: RatchetAction,
) -> bool {
    match payload {
        Some(bytes) => {
            &&& post == (RatchetLoop { phase: RatchetPhase::Encrypting, dhr_const: pre.dhr_const })
            &&& action matches RatchetAction::Encrypt(p)
            &&& p@ == bytes@
        },
        None => goes_to_sleep(pre, post, action),
    }
}

/// A frame from the ratchet goes out, and the loop is in `phase`.
pub open spec fn sends(
    pre: RatchetLoop,
    frame: Seq<u8>,
    phase: RatchetPhase,
    post: RatchetLoop,
    action: RatchetAction,
) -> bool {
    &&& post == (RatchetLoop { phase, dhr_const: pre.dhr_const })
    &&& action matches RatchetAction::Transmit(f)
    &&& f@ == frame
}

/// Received bytes go to the ratchet, and the loop is in `phase`.
pub open spec fn absorbs(
    pre: RatchetLoop,
    bytes: Seq<u8>,
    phase: RatchetPhase,
    post: RatchetLoop,
    action: RatchetAction,
) -> bool {
    &&& post == (RatchetLoop { phase, dhr_const: pre.dhr_const })
    &&& action matches RatchetAction::Absorb(b)
    &&& b@ == bytes
}

/// The step of the loop: from `pre`, told `event`, to `post` with `action`
/// asked of the caller. `fcnt_up` is the ratchet's uplink counter as it
/// stands, `payload` what the operating system gave for random bytes.
pub open spec fn ratchet_step(
    pre: RatchetLoop,
    event: RatchetEvent,
    fcnt_up: u16,
    payload: Option<[u8; 8]>,
    post: RatchetLoop,
    action: RatchetAction,
) -> bool {
    match (pre.phase, event) {
        (RatchetPhase::Settling, RatchetEvent::Slept) => tick_begins(pre, payload, post, action),
        (RatchetPhase::Sleeping, RatchetEvent::Slept) => tick_begins(pre, payload, post, action),
        (RatchetPhase::Encrypting, RatchetEvent::Encrypted(frame)) => sends(
            pre,
            frame@,
            RatchetPhase::SendingUplink,
            post,
            action,
        ),
        (RatchetPhase::SendingUplink, RatchetEvent::Sent(_)) => goes_to(
            pre,
            post,
            RatchetPhase::ListeningUplink,
            action,
            RatchetAction::Listen,
        ),
        (RatchetPhase::ListeningUplink, RatchetEvent::Received(bytes)) => if bytes@.len() > 0 {
            absorbs(pre, bytes@, RatchetPhase::AbsorbingUplink, post, action)
        } else {
            decided(pre, fcnt_up, post, action)
        },
        (RatchetPhase::AbsorbingUplink, RatchetEvent::Absorbed) => decided(
            pre,
            fcnt_up,
            post,
            action,
        ),
        (RatchetPhase::RequestingDh, RatchetEvent::DhRequest(frame)) => sends(
            pre,
            frame@,
            RatchetPhase::SendingDh,
            post,
            action,
        ),
        (RatchetPhase::SendingDh, RatchetEvent::Sent(ok)) => if ok {
            goes_to(pre, post, RatchetPhase::ListeningDh, action, RatchetAction::Listen)
        } else {
            goes_to_sleep(pre, post, action)
        },
        (RatchetPhase::ListeningDh, RatchetEvent::Received(bytes)) => if bytes@.len() > 0 {
            absorbs(pre, bytes@, RatchetPhase::AbsorbingDh, post, action)
        } else {
            goes_to_sleep(pre, post, action)
        },
        (RatchetPhase::AbsorbingDh, RatchetEvent::Absorbed) => goes_to_sleep(pre, post, action),
        _ => post == pre && action is Ignore,
    }
}

/// The eight bytes of `bytes` as an array.
fn to_payload(bytes: &[u8]) -> (payload: [u8; 8])
    requires
        bytes@.len() == 8,
    ensures
        payload@ == bytes@,
{
    let payload: [u8; 8] = [
        bytes[0],
        bytes[1],
        bytes[2],
        bytes[3],
        bytes[4],
        bytes[5],
        bytes[6],
        bytes[7],
    ];
    assert(payload@ =~= bytes@);
    payload
}

/// The uplink payload that a draw of random bytes gives: the bytes
/// themselves where 8 were drawn, and none where the draw failed or has
/// another length.
pub fn payload_of_draw(draw: Option<Vec<u8>>) -> (payload: Option<[u8; 8]>)
    ensures
        payload is Some <==> (draw matches Some(bytes) && bytes@.len() == 8),
        payload matches Some(p) ==> draw matches Some(bytes) && p@ == bytes@,
{
    match draw {
        Some(bytes) => {
            if bytes.len() == 8 {
                Some(to_payload(bytes.as_slice()))
            } else {
                None
            }
        },
        None => None,
    }
}

/// Eight fresh random bytes, or `None` when the operating system gave no
/// entropy. The bytes are what the system drew, so nothing is known of
/// them beforehand.
fn fresh_payload() -> (payload: Option<[u8; 8]>) {
    payload_of_draw(os_random_bytes(8))
}

impl RatchetLoop {
    /// Starts the loop from the keys of a completed handshake: the loop in
    /// its pause, the keys in the sizes that the ratchet is made from, and
    /// the pause to be kept. Fails, with `InvalidKeyMaterial`, exactly when
    /// a key is not 32 bytes long or the address not 4.
    pub fn start(keys: &RatchetKeys, dhr_const: u16) -> (out: Result<
        (RatchetLoop, SessionKeys, RatchetAction),
        HandshakeError,
    >)
        ensures
            out is Ok <==> keys.wf(),
            out matches Ok(started) ==> {
                &&& started.0 == (RatchetLoop { phase: RatchetPhase::Settling, dhr_const })
                &&& started.1.send_chain_key@ == keys.ed_sck@
                &&& started.1.recv_chain_key@ == keys.ed_rck@
                &&& started.1.root_key@ == keys.ed_rk@
                &&& started.1.devaddr@ == keys.devaddr@
                &&& started.2 == (RatchetAction::Sleep { radio_sleep: false, millis: SETTLE_MILLIS })
            },
            out matches Err(e) ==> e == HandshakeError::InvalidKeyMaterial,
    {
        match keys.session() {
            Some(session) => Ok(
                (
                    RatchetLoop { phase: RatchetPhase::Settling, dhr_const },
                    session,
                    RatchetAction::Sleep { radio_sleep: false, millis: SETTLE_MILLIS },
                ),
            ),
            None => Err(HandshakeError::InvalidKeyMaterial),
        }
    }

    /// Ends the tick.
    fn sleep(&mut self) -> (action: RatchetAction)
        ensures
            goes_to_sleep(*old(self), *final(self), action),
    {
        self.phase = RatchetPhase::Sleeping;
        RatchetAction::Sleep { radio_sleep: true, millis: TICK_MILLIS }
    }

    /// Decides between a Diffie-Hellman step and sleep.
    fn decide(&mut self, fcnt_up: u16) -> (action: RatchetAction)
        ensures
            decided(*old(self), fcnt_up, *final(self), action),
    {
        if fcnt_up >= self.dhr_const {
            self.phase = RatchetPhase::RequestingDh;
            RatchetAction::InitiateRatchet
        } else {
            self.sleep()
        }
    }

    /// One step of the loop with the random payload `payload` at hand:
    /// takes `event` and the ratchet's uplink counter and says what to do
    /// next.
    pub fn step_with(&mut self, event: RatchetEvent, fcnt_up: u16, payload: Option<[u8; 8]>) -> (action:
        RatchetAction)
        ensures
            ratchet_step(*old(self), event, fcnt_up, payload, *final(self), action),
    {
        let phase: RatchetPhase = self.phase;
        match event {
            RatchetEvent::Slept => {
                if phase == RatchetPhase::Settling || phase == RatchetPhase::Sleeping {
                    match payload {
                        Some(bytes) => {
                            self.phase = RatchetPhase::Encrypting;
                            RatchetAction::Encrypt(bytes)
                        },
                        None => self.sleep(),
                    }
                } else {
                    RatchetAction::Ignore
                }
            },
            RatchetEvent::Encrypted(frame) => {
                if phase == RatchetPhase::Encrypting {
                    self.phase = RatchetPhase::SendingUplink;
                    RatchetAction::Transmit(frame)
                } else {
                    RatchetAction::Ignore
                }
            },
            RatchetEvent::Sent(ok) => {
                if phase == RatchetPhase::SendingUplink {
                    self.phase = RatchetPhase::ListeningUplink;
                    RatchetAction::Listen
                } else if phase == RatchetPhase::SendingDh {
                    if ok {
                        self.phase = RatchetPhase::ListeningDh;
                        RatchetAction::Listen
                    } else {
                        self.sleep()
                    }
                } else {
                    RatchetAction::Ignore
                }
            },
            RatchetEvent::Received(bytes) => {
                if phase == RatchetPhase::ListeningUplink {
                    if bytes.len() > 0 {
                        self.phase = RatchetPhase::AbsorbingUplink;
                        RatchetAction::Absorb(bytes)
                    } else {
                        self.decide(fcnt_up)
                    }
                } else if phase == RatchetPhase::ListeningDh {
                    if bytes.len() > 0 {
                        self.phase = RatchetPhase::AbsorbingDh;
                        RatchetAction::Absorb(bytes)
                    } else {
                        self.sleep()
                    }
                } else {
                    RatchetAction::Ignore
                }
            },
            RatchetEvent::Absorbed => {
                if phase == RatchetPhase::AbsorbingUplink {
                    self.decide(fcnt_up)
                } else if phase == RatchetPhase::AbsorbingDh {
                    self.sleep()
                } else {
                    RatchetAction::Ignore
                }
            },
            RatchetEvent::DhRequest(frame) => {
                if phase == RatchetPhase::RequestingDh {
                    self.phase = RatchetPhase::SendingDh;
                    RatchetAction::Transmit(frame)
                } else {
                    RatchetAction::Ignore
                }
            },
        }
    }

    /// One step of the loop: takes `event` and the ratchet's uplink counter
    /// and says what to do next. The payload of an uplink is drawn from the
    /// operating system.
    pub fn step(&mut self, event: RatchetEvent, fcnt_up: u16) -> (action: RatchetAction)
        ensures
            exists|payload: Option<[u8; 8]>|
                ratchet_step(*old(self), event, fcnt_up, payload, *final(self), action),
    {
        let wanted: bool = match &event {
            RatchetEvent::Slept => true,
            _ => false,
        };
        let payload: Option<[u8; 8]> = if wanted {
            fresh_payload()
        } else {
            None
        };
        self.step_with(event, fcnt_up, payload)
    }
}

/// A Diffie-Hellman step is asked for only when the ratchet's uplink
/// counter has reached the threshold, and then only right after the uplink
/// of the tick and its receive windows.
pub proof fn lemma_dh_request_at_threshold(
    pre: RatchetLoop,
    event: RatchetEvent,
    fcnt_up: u16,
    payload: Option<[u8; 8]>,
    post: RatchetLoop,
    action: RatchetAction,
)
    requires
        ratchet_step(pre, event, fcnt_up, payload, post, action),
        action is InitiateRatchet,
    ensures
        fcnt_up >= pre.dhr_const,
        pre.phase is ListeningUplink || pre.phase is AbsorbingUplink,
        post.phase is RequestingDh,
{
}

} // verus!
