//! The secrets that a completed handshake leaves behind.

use crate::envelope::devaddr_at;
use vstd::prelude::*;

verus! {

/// Length of the root key and of each chain key.
pub const KEY_LEN: usize = 32;

/// The three session secrets and the device address, in the fixed sizes
/// that the ratchet takes. The chain keys are named from the holder's side:
/// what the end device sends with, the server receives with.
#[derive(Clone, Copy, Debug, PartialEq, Eq)]
pub struct SessionKeys {
    pub root_key: [u8; 32],
    pub recv_chain_key: [u8; 32],
    pub send_chain_key: [u8; 32],
    pub devaddr: [u8; 4],
}

/// Whether the three keys have the length of a session secret.
pub open spec fn key_lengths_ok(send: Seq<u8>, recv: Seq<u8>, root: Seq<u8>) -> bool {
    send.len() == 32 && recv.len() == 32 && root.len() == 32
}

/// The first 32 bytes of `bytes` as an array.
pub fn to_key(bytes: &[u8]) -> (key: [u8; 32])
    requires
        bytes@.len() >= 32,
    ensures
        key@ == bytes@.subrange(0, 32),
{
    let mut key: [u8; 32] = [0u8; 32];
    let mut i: usize = 0;
    while i < 32
        invariant
            i <= 32,
            bytes@.len() >= 32,
            forall|j: int| 0 <= j < i ==> key@[j] == bytes@[j],
        decreases 32 - i,
    {
        key[i] = bytes[i];
        i = i + 1;
    }
    assert(key@ =~= bytes@.subrange(0, 32));
    key
}

impl SessionKeys {
    /// The session of the holder of `send`, `recv` and `root`, as the EDHOC
    /// core gave them, under `devaddr`. `None` exactly when one of the keys
    /// is not 32 bytes long.
    pub fn from_parts(send: &[u8], recv: &[u8], root: &[u8], devaddr: [u8; 4]) -> (keys: Option<
        SessionKeys,
    >)
        ensures
            keys is Some <==> key_lengths_ok(send@, recv@, root@),
            keys matches Some(k) ==> {
                &&& k.send_chain_key@ == send@
                &&& k.recv_chain_key@ == recv@
                &&& k.root_key@ == root@
                &&& k.devaddr@ == devaddr@
            },
    {
        if send.len() != KEY_LEN || recv.len() != KEY_LEN || root.len() != KEY_LEN {
            return None;
        }
        assert(send@.subrange(0, 32) =~= send@);
        assert(recv@.subrange(0, 32) =~= recv@);
        assert(root@.subrange(0, 32) =~= root@);
        Some(
            SessionKeys {
                root_key: to_key(root),
                recv_chain_key: to_key(recv),
                send_chain_key: to_key(send),
                devaddr,
            },
        )
    }
}

/// The address held in the four bytes of `bytes`, or `None` when `bytes` is
/// not four bytes long.
pub fn devaddr_of(bytes: &[u8]) -> (devaddr: Option<[u8; 4]>)
    ensures
        devaddr is Some <==> bytes@.len() == 4,
        devaddr matches Some(a) ==> a@ == bytes@,
{
    if bytes.len() != 4 {
        return None;
    }
    assert(bytes@.subrange(0, 4) =~= bytes@);
    Some(devaddr_at(bytes, 0))
}

} // verus!
