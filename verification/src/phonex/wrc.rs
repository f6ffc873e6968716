//! The offering peer's connection: the responses it sends, and how it
//! handles the requests it receives.

use vstd::prelude::*;
use crate::exchange::{Exchange, Incoming, Step, Stage};
use crate::phonex::message::{
    HandshakeRequest, HandshakeResponse, SessionDescriptionResponse, CandidateResponse,
};
use crate::signal::message::Sdp;

verus! {

/// The id of the peer this one exchanges its handshake with.
pub const TARGET: &'static str = "2";

/// The response carrying this peer's offer or answer.
pub fn description_response(sdp: Sdp) -> (h: HandshakeResponse)
    ensures
        h matches HandshakeResponse::SessionDescriptionResponse(v) && v.target_id@ == TARGET@ && v.sdp == sdp,
{
    HandshakeResponse::SessionDescriptionResponse(SessionDescriptionResponse {
        target_id: String::from_str(TARGET),
        sdp,
    })
}

/// The response carrying a waiting candidate.
pub fn pending_candidate_response(candidate: String) -> (h: HandshakeResponse)
    ensures
        h matches HandshakeResponse::CandidateResponse(v) && v.target_id@ == TARGET@ && v.candidate == candidate,
{
    HandshakeResponse::CandidateResponse(CandidateResponse { target_id: String::from_str(TARGET), candidate })
}

/// The response carrying a candidate gathered after the remote description
/// was set; it is addressed by the candidate's statistics id.
pub fn gathered_candidate_response(stats_id: String, candidate: String) -> (h: HandshakeResponse)
    ensures
        h matches HandshakeResponse::CandidateResponse(v) && v.target_id == stats_id && v.candidate == candidate,
{
    HandshakeResponse::CandidateResponse(CandidateResponse { target_id: stats_id, candidate })
}

/// Starts handling a request from the other peer. A failure to set the
/// remote description stops the handling of further requests; any later
/// failure is fatal.
pub fn handle_handshake(msg: HandshakeRequest) -> (r: (Exchange, Step))
    ensures
        r.0.aborts_after_remote(),
        match msg {
            HandshakeRequest::SessionDescriptionRequest(v) => r.0.stage() == Stage::SettingRemote
                && r.1 == Step::SetRemoteDescription(v.sdp),
            HandshakeRequest::CandidateRequest(v) => r.0.stage() == Stage::AddingCandidate
                && r.1 == Step::AddIceCandidate(v.candidate),
        },
{
    let incoming = match msg {
        HandshakeRequest::SessionDescriptionRequest(v) => Incoming::Description(v.sdp),
        HandshakeRequest::CandidateRequest(v) => Incoming::Candidate(v.candidate),
    };
    Exchange::start(incoming, true)
}

} // verus!
