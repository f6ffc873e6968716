//! The signalling server: its wire messages, the routing of requests between
//! registered clients, and the handling of each websocket connection.

pub mod channel;
pub mod err;
pub mod handler;
pub mod match_server;
pub mod matching;
pub mod message;
