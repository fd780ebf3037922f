//! What the end device is given at start: its static key material, the
//! directory of server keys, and its settings.

use crate::kid::directory;
use crate::kid::find_peer_key;
use crate::kid::lookup;
use crate::kid::PeerEntry;
use crate::kid::PeerKey;
use crate::session::devaddr_of;
use crate::session::key_lengths_ok;
use crate::session::SessionKeys;
use vstd::prelude::*;

verus! {

/// The key identifier under which the end device's own static key is known.
pub const ED_KID: u8 = 0xA2;

/// The static secret of the end device and the servers it knows.
#[derive(Clone, Debug, PartialEq, Eq)]
pub struct StaticKeys {
    pub ed_static_material: [u8; 32],
    pub as_keys: Vec<AsKeys>,
}

/// One server: its key identifier and its static public key.
#[derive(Clone, Debug, PartialEq, Eq)]
pub struct AsKeys {
    pub kid: Vec<u8>,
    pub as_static_material: [u8; 32],
}

/// The settings of the end device. Delays and durations are in
/// milliseconds.
#[derive(Clone, Copy, Debug, PartialEq, Eq)]
pub struct Config {
    pub deveui: [u8; 8],
    pub appeui: [u8; 8],
    /// Number of uplinks after which a Diffie-Hellman ratchet step is asked
    /// for.
    pub dhr_const: u16,
    pub rx1_delay: u64,
    pub rx1_duration: i32,
    pub rx2_delay: u64,
    pub rx2_duration: i32,
}

/// What a completed handshake gives the end device, as the EDHOC core
/// handed it over: the sending chain key, the receiving chain key, the root
/// key, and the address that the server assigned.
#[derive(Clone, Debug, PartialEq, Eq)]
pub struct RatchetKeys {
    pub ed_sck: Vec<u8>,
    pub ed_rck: Vec<u8>,
    pub ed_rk: Vec<u8>,
    pub devaddr: Vec<u8>,
}

impl PeerEntry for AsKeys {
    open spec fn peer(&self) -> PeerKey {
        PeerKey { kid: self.kid@, key: self.as_static_material@ }
    }

    fn entry_kid(&self) -> (kid: &[u8]) {
        self.kid.as_slice()
    }

    fn entry_key(&self) -> (key: [u8; 32]) {
        self.as_static_material
    }
}

impl StaticKeys {
    /// The directory of server keys, as mathematical values.
    pub open spec fn directory(&self) -> Seq<PeerKey> {
        directory(self.as_keys@)
    }

    /// The static public key of the server that goes by `kid`.
    pub fn peer_key(&self, kid: &[u8]) -> (found: Option<[u8; 32]>)
        ensures
            found is Some <==> lookup(self.directory(), kid@) is Some,
            found matches Some(key) ==> lookup(self.directory(), kid@) == Some(key@),
    {
        find_peer_key(&self.as_keys, kid)
    }
}

impl RatchetKeys {
    /// Whether the keys are 32 bytes each and the address 4 bytes.
    pub open spec fn wf(&self) -> bool {
        key_lengths_ok(self.ed_sck@, self.ed_rck@, self.ed_rk@) && self.devaddr@.len() == 4
    }

    /// The keys in the fixed sizes that the ratchet takes. `None` exactly
    /// when a key is not 32 bytes long or the address not 4.
    pub fn session(&self) -> (keys: Option<SessionKeys>)
        ensures
            keys is Some <==> self.wf(),
            keys matches Some(k) ==> {
                &&& k.send_chain_key@ == self.ed_sck@
                &&& k.recv_chain_key@ == self.ed_rck@
                &&& k.root_key@ == self.ed_rk@
                &&& k.devaddr@ == self.devaddr@
            },
    {
        match devaddr_of(self.devaddr.as_slice()) {
            Some(devaddr) => SessionKeys::from_parts(
                self.ed_sck.as_slice(),
                self.ed_rck.as_slice(),
                self.ed_rk.as_slice(),
                devaddr,
            ),
            None => None,
        }
    }
}

} // verus!
