//! What the server is given at start: its static key material and the
//! directory of device keys.

use crate::kid::directory;
use crate::kid::find_peer_key;
use crate::kid::lookup;
use crate::kid::PeerEntry;
use crate::kid::PeerKey;
use vstd::prelude::*;

verus! {

/// The key identifier under which the server's own static key is known.
pub const AS_KID: u8 = 0xA3;

/// The static secret of the server and the devices it knows.
#[derive(Clone, Debug, PartialEq, Eq)]
pub struct StaticKeys {
    pub as_static_material: [u8; 32],
    pub ed_keys: Vec<EdKeys>,
}

/// One end device: its key identifier and its static public key.
#[derive(Clone, Debug, PartialEq, Eq)]
pub struct EdKeys {
    pub kid: Vec<u8>,
    pub ed_static_material: [u8; 32],
}

impl PeerEntry for EdKeys {
    open spec fn peer(&self) -> PeerKey {
        PeerKey { kid: self.kid@, key: self.ed_static_material@ }
    }

    fn entry_kid(&self) -> (kid: &[u8]) {
        self.kid.as_slice()
    }

    fn entry_key(&self) -> (key: [u8; 32]) {
        self.ed_static_material
    }
}

impl StaticKeys {
    /// The directory of device keys, as mathematical values.
    pub open spec fn directory(&self) -> Seq<PeerKey> {
        directory(self.ed_keys@)
    }

    /// The static public key of the device that goes by `kid`.
    pub fn peer_key(&self, kid: &[u8]) -> (found: Option<[u8; 32]>)
        ensures
            found is Some <==> lookup(self.directory(), kid@) is Some,
            found matches Some(key) ==> lookup(self.directory(), kid@) == Some(key@),
    {
        find_peer_key(&self.ed_keys, kid)
    }
}

} // verus!
