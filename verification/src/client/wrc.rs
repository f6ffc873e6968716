//! The client's peer connection: the handshake messages it sends, and how it
//! handles those it receives.

use vstd::prelude::*;
use crate::client::message::{Handshake, SessionDescription, Candidate};
use crate::exchange::{Exchange, Incoming, Step, Stage};
use crate::signal::message::Sdp;

verus! {

/// The id of the peer this client exchanges its handshake with.
pub const TARGET: &'static str = "1";

/// The message carrying this client's offer or answer to its peer.
pub fn description_message(sdp: Sdp) -> (h: Handshake)
    ensures
        h matches Handshake::SessionDescription(v) && v.target_id@ == TARGET@ && v.sdp == sdp,
{
    Handshake::SessionDescription(SessionDescription { target_id: String::from_str(TARGET), sdp })
}

/// The message carrying a waiting candidate to the peer.
pub fn pending_candidate_message(candidate: String) -> (h: Handshake)
    ensures
        h matches Handshake::Candidate(v) && v.target_id@ == TARGET@ && v.candidate == candidate,
{
    Handshake::Candidate(Candidate { target_id: String::from_str(TARGET), candidate })
}

/// The message carrying a candidate gathered after the remote description
/// was set; it is addressed by the candidate's statistics id.
pub fn gathered_candidate_message(stats_id: String, candidate: String) -> (h: Handshake)
    ensures
        h matches Handshake::Candidate(v) && v.target_id == stats_id && v.candidate == candidate,
{
    Handshake::Candidate(Candidate { target_id: stats_id, candidate })
}

/// Starts handling a handshake message from the peer. Every failed step
/// stops the handling of further messages.
pub fn handle_handshake(msg: Handshake) -> (r: (Exchange, Step))
    ensures
        !r.0.aborts_after_remote(),
        match msg {
            Handshake::SessionDescription(v) => r.0.stage() == Stage::SettingRemote
                && r.1 == Step::SetRemoteDescription(v.sdp),
            Handshake::Candidate(v) => r.0.stage() == Stage::AddingCandidate
                && r.1 == Step::AddIceCandidate(v.candidate),
        },
{
    let incoming = match msg {
        Handshake::SessionDescription(v) => Incoming::Description(v.sdp),
        Handshake::Candidate(v) => Incoming::Candidate(v.candidate),
    };
    Exchange::start(incoming, false)
}

} // verus!
