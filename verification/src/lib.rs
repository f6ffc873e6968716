//! Signalling and handshake logic of a small WebRTC peer-to-peer system.
//!
//! A signalling server routes session descriptions and ICE candidates between
//! registered clients; the peers drive their offer/answer handshakes through
//! the state machine in [`exchange`], and hold back the ICE candidates they
//! gather until the remote description is set ([`peer`]).

pub mod client;
pub mod exchange;
pub mod handshake;
pub mod json;
pub mod peer;
pub mod phonex;
pub mod server;
pub mod signal;
pub mod utf8;
