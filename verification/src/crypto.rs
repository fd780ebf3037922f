//! The two outside primitives that the protocol logic calls directly:
//! the operating system's random source and the X25519 base-point
//! multiplication. Their contracts are believed, not proved.

use crate::session::to_key;
use rand::rngs::OsRng;
use rand::RngCore;
use vstd::prelude::*;
use x25519_dalek_ng::PublicKey;
use x25519_dalek_ng::StaticSecret;

verus! {

/// The X25519 public key that belongs to the 32 secret bytes `secret`.
pub uninterp spec fn x25519_public(secret: Seq<u8>) -> Seq<u8>;

/// Calls `PublicKey::from(&StaticSecret)` of x25519-dalek-ng on the secret
/// loaded from `secret`. The crate clamps the bytes and multiplies the base
/// point by them; the result depends on the bytes alone and is named
/// `x25519_public`.
#[verifier::external_body]
pub(crate) fn x25519_public_key(secret: &[u8; 32]) -> (public: [u8; 32])
    ensures
        public@ == x25519_public(secret@),
{
    PublicKey::from(&StaticSecret::from(*secret)).to_bytes()
}

/// Calls `OsRng::try_fill_bytes` of rand on a buffer of `n` bytes. `None`
/// when the operating system gave no entropy. Nothing is claimed of the
/// bytes but their number, which is that of the buffer handed in.
#[verifier::external_body]
pub(crate) fn os_random_bytes(n: usize) -> (bytes: Option<Vec<u8>>)
    requires
        n <= 255,
    ensures
        bytes matches Some(b) ==> b@.len() == n,
{
    let mut buffer = vec![0u8; n];
    match OsRng.try_fill_bytes(&mut buffer) {
        Ok(()) => Some(buffer),
        Err(_) => None,
    }
}

/// The key that a draw of random bytes gives: the bytes themselves where
/// 32 were drawn, and none where the draw failed or has another length.
pub fn key_of_draw(draw: Option<Vec<u8>>) -> (key: Option<[u8; 32]>)
    ensures
        key is Some <==> (draw matches Some(bytes) && bytes@.len() == 32),
        key matches Some(k) ==> draw matches Some(bytes) && k@ == bytes@,
{
    match draw {
        Some(bytes) => {
            if bytes.len() == 32 {
                assert(bytes@.subrange(0, 32) =~= bytes@);
                Some(to_key(bytes.as_slice()))
            } else {
                None
            }
        },
        None => None,
    }
}

/// Thirty-two fresh random bytes, or `None` when the operating system gave
/// no entropy. The bytes are what the system drew, so nothing is known of
/// them beforehand.
pub(crate) fn fresh_key() -> (key: Option<[u8; 32]>) {
    key_of_draw(os_random_bytes(32))
}

} // verus!
