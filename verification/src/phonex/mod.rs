//! The offering peer: it opens the data channel, makes the offer and handles
//! the answer and candidates that come back.

pub mod data_channel;
pub mod err;
pub mod message;
pub mod wrc;
