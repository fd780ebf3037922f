//! The application server: its static keys, the responder side of the
//! handshake, and the dispatcher that routes each inbound frame.

pub mod dispatcher;
pub mod keys;
