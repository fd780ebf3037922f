//! The end device: its static keys and settings, the initiator side of the
//! handshake, and the ratchet loop that follows it.

pub mod handshake;
pub mod keys;
pub mod ratchet;
