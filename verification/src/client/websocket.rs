//! The client's side of the websocket to the signalling server: the texts it
//! sends, and what it makes of the messages it receives.

use vstd::prelude::*;
use core::ops::ControlFlow;
use crate::client::message::{Handshake, SessionDescription, Candidate};
use crate::signal::err::SignalError;
use crate::signal::message::{
    Message, Payload, RequestType, SessionDescriptionMessage, CandidateMessage, envelope_text,
    register_text,
};
use crate::json::json_quote;

verus! {

/// The id this client registers under.
pub const ID: &'static str = "2";

/// The registration text this client sends first.
pub fn registration_text() -> (r: Result<String, SignalError>)
    ensures
        r is Ok,
        r matches Ok(t) ==> t@ == envelope_text(RequestType::Register, register_text(json_quote(ID@))),
{
    let message = Message::new_register_message(String::from_str(ID))?;
    message.try_to_string()
}

/// The text sent to the signalling server for a handshake message of the
/// peer connection.
pub fn handshake_text(h: Handshake) -> (r: Result<String, SignalError>)
    ensures
        r is Ok,
        r matches Ok(t) ==> t@ == match h {
            Handshake::SessionDescription(v) => envelope_text(
                RequestType::SessionDescription,
                (SessionDescriptionMessage { target_id: v.target_id, sdp: v.sdp }).json_text(),
            ),
            Handshake::Candidate(v) => envelope_text(
                RequestType::Candidate,
                (CandidateMessage { target_id: v.target_id, candidate: v.candidate }).json_text(),
            ),
        },
{
    let message = match h {
        Handshake::SessionDescription(v) => Message::new_session_description_message(v.target_id, v.sdp)?,
        Handshake::Candidate(v) => Message::new_candidate_message(v.target_id, v.candidate)?,
    };
    message.try_to_string()
}

/// A message received from the signalling server.
pub enum Received {
    /// A text message, read according to its request type.
    Text(Payload),
    Binary,
    Close,
    Pong,
    Ping,
}

/// What a received message asks of the peer connection, and whether the
/// websocket is read further: a session description or a candidate is
/// passed on; a close ends the reading.
pub fn process_message(msg: Received) -> (r: (Option<Handshake>, ControlFlow<(), ()>))
    ensures
        r.1 is Break <==> msg is Close,
        match msg {
            Received::Text(Payload::SessionDescription(m)) => r.0 matches Some(Handshake::SessionDescription(v))
                && v.target_id == m.target_id && v.sdp == m.sdp,
            Received::Text(Payload::Candidate(m)) => r.0 matches Some(Handshake::Candidate(v))
                && v.target_id == m.target_id && v.candidate == m.candidate,
            _ => r.0 is None,
        },
{
    match msg {
        Received::Text(payload) => {
            let handshake = match payload {
                Payload::SessionDescription(m) => Some(
                    Handshake::SessionDescription(SessionDescription { target_id: m.target_id, sdp: m.sdp }),
                ),
                Payload::Candidate(m) => Some(
                    Handshake::Candidate(Candidate { target_id: m.target_id, candidate: m.candidate }),
                ),
                Payload::Register(_) => None,
                Payload::Ping => None,
                Payload::Pong => None,
            };
            (handshake, ControlFlow::Continue(()))
        },
        Received::Binary => (None, ControlFlow::Continue(())),
        Received::Close => (None, ControlFlow::Break(())),
        Received::Pong => (None, ControlFlow::Continue(())),
        Received::Ping => (None, ControlFlow::Continue(())),
    }
}

} // verus!
