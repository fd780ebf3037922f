//! What can go wrong in a handshake.

use vstd::prelude::*;

verus! {

/// Why a handshake, or one frame's worth of work, came to nothing.
#[derive(Clone, Debug, PartialEq, Eq)]
pub enum HandshakeError {
    /// A frame was shorter than its fixed part. The frame is dropped and
    /// work goes on.
    MalformedEnvelope,
    /// A frame names a device address that has no session of the wanted
    /// kind. The frame is dropped.
    UnknownDevaddr,
    /// The peer's key identifier is in no line of the static-key directory.
    /// This handshake attempt ends; nothing is sent.
    UnknownPeerKid,
    /// The EDHOC core failed on our side and asks that these bytes go to
    /// the peer as an error reply. The handshake ends after that.
    HandshakeOwnError(Vec<u8>),
    /// The peer told us that it failed. The handshake ends; nothing is owed
    /// to the peer.
    HandshakePeerError(String),
    /// The transceiver failed. Logged and passed over.
    RadioError,
    /// Both receive windows closed with nothing received.
    Timeout,
    /// A well-formed frame of another type than the one awaited.
    UnexpectedMessage,
    /// The operating system gave no random bytes for a fresh secret.
    NoEntropy,
    /// The EDHOC core handed over a key that is not 32 bytes long.
    InvalidKeyMaterial,
    /// Every address drawn for a new device was taken.
    DuplicateDevaddr,
}

/// An error reported by the EDHOC core, tagged with the side that is at
/// fault.
#[derive(Clone, Debug, PartialEq, Eq)]
pub enum CoreError {
    /// Our side is at fault; the bytes are the error message for the peer.
    Own(Vec<u8>),
    /// The peer is at fault, or said so; the text is for the log.
    Peer(String),
}

/// Whether `error` stands for what the core reported in `fault`.
pub open spec fn reports(error: HandshakeError, fault: CoreError) -> bool {
    match fault {
        CoreError::Own(bytes) => error matches HandshakeError::HandshakeOwnError(b) && b@
            == bytes@,
        CoreError::Peer(text) => error matches HandshakeError::HandshakePeerError(t) && t@
            == text@,
    }
}

/// The bytes owed to the peer after `fault`: the error message of a fault
/// on our side, and nothing after a fault of the peer.
pub open spec fn reply_owed(fault: CoreError) -> Option<Seq<u8>> {
    match fault {
        CoreError::Own(bytes) => Some(bytes@),
        CoreError::Peer(_) => None,
    }
}

impl CoreError {
    /// The handshake error for this fault, and the bytes owed to the peer.
    pub fn settle(self) -> (out: (HandshakeError, Option<Vec<u8>>))
        ensures
            reports(out.0, self),
            out.1 is Some <==> reply_owed(self) is Some,
            out.1 matches Some(bytes) ==> reply_owed(self) == Some(bytes@),
    {
        match self {
            CoreError::Own(bytes) => {
                let reply: Vec<u8> = copy_bytes(&bytes);
                (HandshakeError::HandshakeOwnError(bytes), Some(reply))
            },
            CoreError::Peer(text) => (HandshakeError::HandshakePeerError(text), None),
        }
    }
}

/// A copy of `bytes`.
pub fn copy_bytes(bytes: &Vec<u8>) -> (copy: Vec<u8>)
    ensures
        copy@ == bytes@,
{
    let mut copy: Vec<u8> = Vec::new();
    copy.extend_from_slice(bytes.as_slice());
    assert(copy@ =~= bytes@);
    copy
}

} // verus!
