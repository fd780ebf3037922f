//! Session establishment and key ratcheting for constrained LoRa endpoints.
//!
//! An end device and an application server share a half-duplex radio link.
//! They run a four-message EDHOC handshake, derive a root key and two chain
//! keys from it, and then exchange ratcheted application frames.
//!
//! This crate holds the protocol's decisions: how frames are laid out, which
//! static key answers a key identifier, how the two handshake roles advance,
//! which session an inbound frame belongs to, and when the receive windows
//! open. The radio, the EDHOC core and the ratchet core are driven by the
//! caller, which performs each requested action and reports what came of it.
//!
//! - [`envelope`]: the frame on the wire, its counter and the radio buffer;
//! - [`kid`]: key identifiers and the lookup in a static-key directory;
//! - [`radio`]: the two receive windows after a transmit;
//! - [`device`]: the end device's keys, its handshake and its ratchet loop;
//! - [`server`]: the server's keys and its dispatcher;
//! - [`registry`]: the server's sessions by device address;
//! - [`session`]: the secrets that a handshake leaves behind;
//! - [`error`]: what can go wrong;
//! - [`agreement`]: what the two roles agree on;
//! - [`crypto`]: the random source and the X25519 public key;
//! - [`hex`]: bytes written out for a person to read.

pub mod agreement;
pub mod crypto;
pub mod device;
pub mod envelope;
pub mod error;
pub mod hex;
pub mod kid;
pub mod radio;
pub mod registry;
pub mod server;
pub mod session;
