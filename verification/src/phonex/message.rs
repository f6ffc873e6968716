//! Handshake requests that reach the peer and responses it sends out.

use vstd::prelude::*;
use crate::signal::message::{Sdp, SessionDescriptionMessage, CandidateMessage};

verus! {

/// A handshake message received from the other peer.
#[derive(Debug)]
pub enum HandshakeRequest {
    SessionDescriptionRequest(SessionDescriptionRequest),
    CandidateRequest(CandidateRequest),
}

/// A handshake message sent to the other peer.
#[derive(Debug)]
pub enum HandshakeResponse {
    SessionDescriptionResponse(SessionDescriptionResponse),
    CandidateResponse(CandidateResponse),
}

#[derive(Debug)]
pub struct SessionDescriptionRequest {
    pub target_id: String,
    pub sdp: Sdp,
}

#[derive(Debug)]
pub struct SessionDescriptionResponse {
    pub target_id: String,
    pub sdp: Sdp,
}

#[derive(Debug)]
pub struct CandidateRequest {
    pub target_id: String,
    pub candidate: String,
}

#[derive(Debug)]
pub struct CandidateResponse {
    pub target_id: String,
    pub candidate: String,
}

impl From<SessionDescriptionRequest> for SessionDescriptionMessage {
    fn from(v: SessionDescriptionRequest) -> (r: Self)
        ensures
            r.target_id == v.target_id && r.sdp == v.sdp,
    {
        SessionDescriptionMessage { target_id: v.target_id, sdp: v.sdp }
    }
}

impl vstd::std_specs::convert::FromSpecImpl<SessionDescriptionRequest> for SessionDescriptionMessage {
    open spec fn obeys_from_spec() -> bool {
        true
    }

    open spec fn from_spec(v: SessionDescriptionRequest) -> Self {
        SessionDescriptionMessage { target_id: v.target_id, sdp: v.sdp }
    }
}

impl From<SessionDescriptionResponse> for SessionDescriptionMessage {
    fn from(v: SessionDescriptionResponse) -> (r: Self)
        ensures
            r.target_id == v.target_id && r.sdp == v.sdp,
    {
        SessionDescriptionMessage { target_id: v.target_id, sdp: v.sdp }
    }
}

impl vstd::std_specs::convert::FromSpecImpl<SessionDescriptionResponse> for SessionDescriptionMessage {
    open spec fn obeys_from_spec() -> bool {
        true
    }

    open spec fn from_spec(v: SessionDescriptionResponse) -> Self {
        SessionDescriptionMessage { target_id: v.target_id, sdp: v.sdp }
    }
}

impl From<CandidateRequest> for CandidateMessage {
    fn from(v: CandidateRequest) -> (r: Self)
        ensures
            r.target_id == v.target_id && r.candidate == v.candidate,
    {
        CandidateMessage { target_id: v.target_id, candidate: v.candidate }
    }
}

impl vstd::std_specs::convert::FromSpecImpl<CandidateRequest> for CandidateMessage {
    open spec fn obeys_from_spec() -> bool {
        true
    }

    open spec fn from_spec(v: CandidateRequest) -> Self {
        CandidateMessage { target_id: v.target_id, candidate: v.candidate }
    }
}

impl From<CandidateMessage> for CandidateResponse {
    fn from(m: CandidateMessage) -> (r: Self)
        ensures
            r.target_id == m.target_id && r.candidate == m.candidate,
    {
        CandidateResponse { target_id: m.target_id, candidate: m.candidate }
    }
}

impl vstd::std_specs::convert::FromSpecImpl<CandidateMessage> for CandidateResponse {
    open spec fn obeys_from_spec() -> bool {
        true
    }

    open spec fn from_spec(m: CandidateMessage) -> Self {
        CandidateResponse { target_id: m.target_id, candidate: m.candidate }
    }
}

} // verus!
