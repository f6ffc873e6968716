//! The answering peer that exchanges its handshake over plain HTTP.

pub mod handshake;
