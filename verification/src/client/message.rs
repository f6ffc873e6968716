//! Handshake messages exchanged between the websocket and the peer connection.

use vstd::prelude::*;
use crate::signal::message::{Sdp, SessionDescriptionMessage, CandidateMessage};

verus! {

/// A handshake message, in either direction.
#[derive(Debug)]
pub enum Handshake {
    SessionDescription(SessionDescription),
    Candidate(Candidate),
}

/// A session description for the client `target_id`.
#[derive(Debug)]
pub struct SessionDescription {
    pub target_id: String,
    pub sdp: Sdp,
}

/// An ICE candidate for the client `target_id`.
#[derive(Debug)]
pub struct Candidate {
    pub target_id: String,
    pub candidate: String,
}

impl From<SessionDescription> for SessionDescriptionMessage {
    fn from(v: SessionDescription) -> (r: Self)
        ensures
            r.target_id == v.target_id && r.sdp == v.sdp,
    {
        SessionDescriptionMessage { target_id: v.target_id, sdp: v.sdp }
    }
}

impl vstd::std_specs::convert::FromSpecImpl<SessionDescription> for SessionDescriptionMessage {
    open spec fn obeys_from_spec() -> bool {
        true
    }

    open spec fn from_spec(v: SessionDescription) -> Self {
        SessionDescriptionMessage { target_id: v.target_id, sdp: v.sdp }
    }
}

impl From<Candidate> for CandidateMessage {
    fn from(v: Candidate) -> (r: Self)
        ensures
            r.target_id == v.target_id && r.candidate == v.candidate,
    {
        CandidateMessage { target_id: v.target_id, candidate: v.candidate }
    }
}

impl vstd::std_specs::convert::FromSpecImpl<Candidate> for CandidateMessage {
    open spec fn obeys_from_spec() -> bool {
        true
    }

    open spec fn from_spec(v: Candidate) -> Self {
        CandidateMessage { target_id: v.target_id, candidate: v.candidate }
    }
}

} // verus!
