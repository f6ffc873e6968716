//! The handling of one websocket connection to the signalling server: what a
//! received message asks of the routing server, how its answers are written
//! back, and when the connection is given up.

use vstd::prelude::*;
use vstd::utf8::{valid_utf8, decode_utf8};
use core::ops::ControlFlow;
use tokio::sync::mpsc::Sender;
use crate::signal::err::SignalError;
use crate::signal::message::{
    Message, Payload, RequestType, SessionDescriptionMessage, CandidateMessage, envelope_text,
};
use crate::signal::match_server::{
    MatchRequest, MatchResponse, MatchRegisterRequest, MatchSessionDescriptionRequest,
    MatchCandidateRequest,
};
use crate::utf8::string_from_utf8;

verus! {

/// The two channels of a connection: to the routing server, and the one the
/// routing server answers this connection on.
pub struct RequestHandler {
    request_sender: Sender<MatchRequest>,
    response_sender: Sender<MatchResponse>,
}

impl RequestHandler {
    /// The channel to the routing server.
    pub closed spec fn requests(self) -> Sender<MatchRequest> {
        self.request_sender
    }

    /// The channel the routing server answers this connection on.
    pub closed spec fn responses(self) -> Sender<MatchResponse> {
        self.response_sender
    }

    pub fn new(req: Sender<MatchRequest>, res: Sender<MatchResponse>) -> (h: Self)
        ensures
            h.requests() == req,
            h.responses() == res,
    {
        RequestHandler { request_sender: req, response_sender: res }
    }

    /// What a received message asks of the routing server, with the channel to
    /// send it on; `None` for a ping or a pong, which ask nothing.
    ///
    /// A registration names this connection's response channel; a session
    /// description or a candidate is passed on with its target and content.
    pub fn request_for(self, payload: Payload) -> (r: Option<(Sender<MatchRequest>, MatchRequest)>)
        ensures
            match payload {
                Payload::Register(m) => r matches Some((s, MatchRequest::Register(v)))
                    && s == self.requests() && v.id == m.id && v.chan == self.responses(),
                Payload::SessionDescription(m) => r matches Some((s, MatchRequest::SessionDescription(v)))
                    && s == self.requests() && v.target_id == m.target_id && v.sdp == m.sdp,
                Payload::Candidate(m) => r matches Some((s, MatchRequest::Candidate(v)))
                    && s == self.requests() && v.target_id == m.target_id && v.candidate == m.candidate,
                Payload::Ping => r is None,
                Payload::Pong => r is None,
            },
    {
        match payload {
            Payload::Register(register_message) => Some((
                self.request_sender,
                MatchRequest::Register(MatchRegisterRequest {
                    id: register_message.id,
                    chan: self.response_sender,
                }),
            )),
            Payload::SessionDescription(session_description_message) => Some((
                self.request_sender,
                MatchRequest::SessionDescription(MatchSessionDescriptionRequest::from(session_description_message)),
            )),
            Payload::Candidate(candidate_message) => Some((
                self.request_sender,
                MatchRequest::Candidate(MatchCandidateRequest::from(candidate_message)),
            )),
            Payload::Ping => None,
            Payload::Pong => None,
        }
    }
}

/// The text of a binary websocket frame, which is handled as a text frame.
pub fn binary_text(message: Vec<u8>) -> (r: Result<String, SignalError>)
    ensures
        r is Ok <==> valid_utf8(message@),
        r matches Ok(s) ==> s@ == decode_utf8(message@),
        r matches Err(e) ==> e is ConvertToStringError,
{
    match string_from_utf8(message) {
        Ok(s) => Ok(s),
        Err(e) => Err(SignalError::ConvertToStringError(e)),
    }
}

/// The text sent to a client for what the routing server delivered to it.
pub fn response_text(value: MatchResponse) -> (r: Result<String, SignalError>)
    ensures
        r is Ok,
        r matches Ok(t) ==> t@ == match value {
            MatchResponse::SessionDescription(v) => envelope_text(
                RequestType::SessionDescription,
                (SessionDescriptionMessage { target_id: v.target_id, sdp: v.sdp }).json_text(),
            ),
            MatchResponse::Candidate(v) => envelope_text(
                RequestType::Candidate,
                (CandidateMessage { target_id: v.target_id, candidate: v.candidate }).json_text(),
            ),
        },
        r matches Err(e) ==> e is SerializeToJSONError,
{
    let (request_type, raw) = match value {
        MatchResponse::SessionDescription(value) => {
            let raw = SessionDescriptionMessage { target_id: value.target_id, sdp: value.sdp };
            (RequestType::SessionDescription, raw.to_json())
        },
        MatchResponse::Candidate(value) => {
            let raw = CandidateMessage { target_id: value.target_id, candidate: value.candidate };
            (RequestType::Candidate, raw.to_json())
        },
    };
    let raw = match raw {
        Ok(raw) => raw,
        Err(e) => return Err(SignalError::SerializeToJSONError(e)),
    };
    let response = Message { request_type, raw };
    match response.try_to_string() {
        Ok(text) => Ok(text),
        Err(SignalError::ToJSONError(e)) => Err(SignalError::SerializeToJSONError(e)),
        Err(e) => Err(e),
    }
}

/// What arrived on a connection, with whether its handling succeeded.
pub enum SocketEvent {
    Text { handled: bool },
    Binary { handled: bool },
    Ping,
    Pong,
    Close,
    /// The connection failed to deliver a message.
    Failed,
}

/// Whether the connection is read further: it stops on a close, on a failure
/// to receive, and on a text or binary message whose handling failed.
pub fn socket_flow(event: SocketEvent) -> (r: ControlFlow<(), ()>)
    ensures
        r is Continue <==> match event {
            SocketEvent::Text { handled } => handled,
            SocketEvent::Binary { handled } => handled,
            SocketEvent::Ping => true,
            SocketEvent::Pong => true,
            SocketEvent::Close => false,
            SocketEvent::Failed => false,
        },
{
    match event {
        SocketEvent::Text { handled } => if handled { ControlFlow::Continue(()) } else { ControlFlow::Break(()) },
        SocketEvent::Binary { handled } => if handled { ControlFlow::Continue(()) } else { ControlFlow::Break(()) },
        SocketEvent::Ping => ControlFlow::Continue(()),
        SocketEvent::Pong => ControlFlow::Continue(()),
        SocketEvent::Close => ControlFlow::Break(()),
        SocketEvent::Failed => ControlFlow::Break(()),
    }
}

} // verus!
