//! The answering client: it talks to the signalling server over a websocket
//! and answers the offer of the other peer.

pub mod message;
pub mod websocket;
pub mod wrc;
