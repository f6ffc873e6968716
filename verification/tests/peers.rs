use phonex::client::message::{Candidate, Handshake, SessionDescription};
use phonex::client::websocket::{handshake_text, process_message, registration_text, Received, ID};
use phonex::client::wrc;
use phonex::exchange::{Event, Exchange, Incoming, Outcome, Step};
use phonex::handshake::{body_text, CandidateRequest as BodyCandidate, BODY_LIMIT};
use phonex::peer::{ends_session, PeerConnectionState, PendingCandidates, STUN_SERVER};
use phonex::phonex::data_channel::message_text;
use phonex::phonex::message::{
    CandidateRequest, CandidateResponse, HandshakeRequest, HandshakeResponse, SessionDescriptionRequest,
};
use phonex::phonex::wrc as offerer;
use phonex::server::handshake::{candidate_request, candidate_url, sdp_url, SdpFlow, SdpStep};
use phonex::signal::message::{CandidateMessage, Payload, RegisterMessage, Sdp, SdpType, SessionDescriptionMessage};

fn sdp(t: SdpType, s: &str) -> Sdp {
    Sdp { sdp_type: t, sdp: s.to_string() }
}

fn is_step(s: &Step, expected: &str) -> bool {
    format!("{:?}", s) == expected
}

#[test]
fn description_is_answered_when_no_local_description() {
    let (mut x, first) = Exchange::start(Incoming::Description(sdp(SdpType::Offer, "o")), false);
    assert!(matches!(first, Step::SetRemoteDescription(ref d) if d.sdp == "o"));
    assert!(matches!(x.step(Event::Succeeded), Step::CheckLocalDescription));
    assert!(matches!(x.step(Event::HasLocalDescription(false)), Step::CreateAnswer));
    assert!(matches!(x.step(Event::AnswerCreated(sdp(SdpType::Answer, "a"))), Step::SendAnswer(ref d) if d.sdp == "a"));
    assert!(matches!(x.step(Event::Succeeded), Step::SetLocalDescription(ref d) if d.sdp == "a" && d.sdp_type == SdpType::Answer));
    assert!(matches!(x.step(Event::Succeeded), Step::SendPendingCandidates));
    assert!(matches!(x.step(Event::Succeeded), Step::Done(Outcome::Continue)));
    assert!(matches!(x.step(Event::Succeeded), Step::Done(Outcome::Continue)));
}

#[test]
fn answer_to_own_offer_sends_waiting_candidates() {
    let (mut x, _) = Exchange::start(Incoming::Description(sdp(SdpType::Answer, "a")), true);
    assert!(matches!(x.step(Event::Succeeded), Step::CheckLocalDescription));
    assert!(matches!(x.step(Event::HasLocalDescription(true)), Step::SendPendingCandidates));
    assert!(matches!(x.step(Event::Succeeded), Step::Done(Outcome::Continue)));
}

#[test]
fn failures_stop_or_abort() {
    let (mut x, _) = Exchange::start(Incoming::Description(sdp(SdpType::Offer, "o")), true);
    assert!(matches!(x.step(Event::Failed), Step::Done(Outcome::Stop)));

    let (mut x, _) = Exchange::start(Incoming::Description(sdp(SdpType::Offer, "o")), true);
    x.step(Event::Succeeded);
    x.step(Event::HasLocalDescription(false));
    assert!(matches!(x.step(Event::Failed), Step::Done(Outcome::Abort)));

    let (mut x, _) = Exchange::start(Incoming::Description(sdp(SdpType::Offer, "o")), false);
    x.step(Event::Succeeded);
    x.step(Event::HasLocalDescription(false));
    x.step(Event::AnswerCreated(sdp(SdpType::Answer, "a")));
    assert!(matches!(x.step(Event::Failed), Step::Done(Outcome::Stop)));

    let (mut x, first) = Exchange::start(Incoming::Candidate("c".to_string()), true);
    assert!(matches!(first, Step::AddIceCandidate(ref c) if c == "c"));
    assert!(matches!(x.step(Event::Failed), Step::Done(Outcome::Abort)));

    let (mut x, _) = Exchange::start(Incoming::Candidate("c".to_string()), false);
    assert!(matches!(x.step(Event::Failed), Step::Done(Outcome::Stop)));
    let (mut x, _) = Exchange::start(Incoming::Candidate("c".to_string()), false);
    assert!(matches!(x.step(Event::Succeeded), Step::Done(Outcome::Continue)));
}

#[test]
fn unexpected_report_counts_as_failure() {
    let (mut x, _) = Exchange::start(Incoming::Description(sdp(SdpType::Offer, "o")), false);
    x.step(Event::Succeeded);
    assert!(is_step(&x.step(Event::Succeeded), "Done(Stop)"));
}

#[test]
fn client_handshake_starts_the_exchange() {
    let (_, first) = wrc::handle_handshake(Handshake::SessionDescription(SessionDescription {
        target_id: "2".to_string(),
        sdp: sdp(SdpType::Offer, "o"),
    }));
    assert!(matches!(first, Step::SetRemoteDescription(ref d) if d.sdp == "o"));
    let (mut x, first) = wrc::handle_handshake(Handshake::Candidate(Candidate {
        target_id: "2".to_string(),
        candidate: "c".to_string(),
    }));
    assert!(matches!(first, Step::AddIceCandidate(ref c) if c == "c"));
    assert!(matches!(x.step(Event::Failed), Step::Done(Outcome::Stop)));
}

#[test]
fn offerer_handshake_aborts_on_candidate_failure() {
    let (mut x, first) = offerer::handle_handshake(HandshakeRequest::CandidateRequest(CandidateRequest {
        target_id: "1".to_string(),
        candidate: "c".to_string(),
    }));
    assert!(matches!(first, Step::AddIceCandidate(_)));
    assert!(matches!(x.step(Event::Failed), Step::Done(Outcome::Abort)));
    let (mut x, _) = offerer::handle_handshake(HandshakeRequest::SessionDescriptionRequest(SessionDescriptionRequest {
        target_id: "1".to_string(),
        sdp: sdp(SdpType::Answer, "a"),
    }));
    assert!(matches!(x.step(Event::Failed), Step::Done(Outcome::Stop)));
}

#[test]
fn handshake_messages_are_addressed() {
    match wrc::description_message(sdp(SdpType::Offer, "o")) {
        Handshake::SessionDescription(v) => assert_eq!(v.target_id, "1"),
        _ => panic!(),
    }
    match wrc::pending_candidate_message("c".to_string()) {
        Handshake::Candidate(v) => {
            assert_eq!(v.target_id, "1");
            assert_eq!(v.candidate, "c");
        }
        _ => panic!(),
    }
    match wrc::gathered_candidate_message("stats".to_string(), "c".to_string()) {
        Handshake::Candidate(v) => assert_eq!(v.target_id, "stats"),
        _ => panic!(),
    }
    match offerer::description_response(sdp(SdpType::Offer, "o")) {
        HandshakeResponse::SessionDescriptionResponse(v) => assert_eq!(v.target_id, "2"),
        _ => panic!(),
    }
    match offerer::pending_candidate_response("c".to_string()) {
        HandshakeResponse::CandidateResponse(v) => assert_eq!((v.target_id.as_str(), v.candidate.as_str()), ("2", "c")),
        _ => panic!(),
    }
    match offerer::gathered_candidate_response("s".to_string(), "c".to_string()) {
        HandshakeResponse::CandidateResponse(v) => assert_eq!(v.target_id, "s"),
        _ => panic!(),
    }
}

#[test]
fn client_registers_as_two() {
    assert_eq!(ID, "2");
    assert_eq!(registration_text().unwrap(), r#"{"request_type":"Register","raw":"{\"id\":\"2\"}"}"#);
}

#[test]
fn client_sends_handshake_texts() {
    let text = handshake_text(Handshake::Candidate(Candidate {
        target_id: "1".to_string(),
        candidate: "c".to_string(),
    }))
    .unwrap();
    assert_eq!(text, r#"{"request_type":"Candidate","raw":"{\"target_id\":\"1\",\"candidate\":\"c\"}"}"#);
    let text = handshake_text(Handshake::SessionDescription(SessionDescription {
        target_id: "1".to_string(),
        sdp: sdp(SdpType::Answer, "a"),
    }))
    .unwrap();
    assert_eq!(
        text,
        r#"{"request_type":"SessionDescription","raw":"{\"target_id\":\"1\",\"sdp\":{\"type\":\"answer\",\"sdp\":\"a\"}}"}"#
    );
}

#[test]
fn received_messages() {
    let (h, flow) = process_message(Received::Text(Payload::Candidate(CandidateMessage {
        target_id: "2".to_string(),
        candidate: "c".to_string(),
    })));
    assert!(flow.is_continue());
    assert!(matches!(h, Some(Handshake::Candidate(v)) if v.candidate == "c" && v.target_id == "2"));
    let (h, flow) = process_message(Received::Text(Payload::SessionDescription(SessionDescriptionMessage {
        target_id: "2".to_string(),
        sdp: sdp(SdpType::Offer, "o"),
    })));
    assert!(flow.is_continue());
    assert!(matches!(h, Some(Handshake::SessionDescription(v)) if v.sdp.sdp == "o"));
    let (h, flow) = process_message(Received::Text(Payload::Register(RegisterMessage { id: "1".to_string() })));
    assert!(h.is_none() && flow.is_continue());
    let (h, flow) = process_message(Received::Text(Payload::Ping));
    assert!(h.is_none() && flow.is_continue());
    let (h, flow) = process_message(Received::Binary);
    assert!(h.is_none() && flow.is_continue());
    let (h, flow) = process_message(Received::Ping);
    assert!(h.is_none() && flow.is_continue());
    let (h, flow) = process_message(Received::Pong);
    assert!(h.is_none() && flow.is_continue());
    let (h, flow) = process_message(Received::Close);
    assert!(h.is_none() && flow.is_break());
}

#[test]
fn candidates_wait_for_the_remote_description() {
    let mut q = PendingCandidates::new();
    assert_eq!(q.on_candidate(Some(1), false), None);
    assert_eq!(q.on_candidate(None, false), None);
    assert_eq!(q.on_candidate(Some(2), false), None);
    assert_eq!(q.on_candidate(Some(3), true), Some(3));
    assert_eq!(q.on_candidate(None, true), None);
    assert_eq!(q.pending(), &vec![1, 2]);
}

#[test]
fn only_failure_ends_the_session() {
    assert!(ends_session(PeerConnectionState::Failed));
    for s in [
        PeerConnectionState::Unspecified,
        PeerConnectionState::New,
        PeerConnectionState::Connecting,
        PeerConnectionState::Connected,
        PeerConnectionState::Disconnected,
        PeerConnectionState::Closed,
    ] {
        assert!(!ends_session(s));
    }
    assert_eq!(STUN_SERVER, "stun:stun.l.google.com:19302");
}

#[test]
fn peer_urls() {
    assert_eq!(candidate_url("0.0.0.0:50000"), "http://0.0.0.0:50000/candidate");
    assert_eq!(sdp_url("127.0.0.1:60000"), "http://127.0.0.1:60000/sdp");
    assert_eq!(candidate_request("c".to_string()).candidate, "c");
}

#[test]
fn bodies_and_data_channel_text() {
    assert_eq!(BODY_LIMIT, 2048);
    assert_eq!(body_text(b"{\"candidate\":\"c\"}".to_vec()).unwrap(), "{\"candidate\":\"c\"}");
    assert!(body_text(vec![0xc3]).is_none());
    assert_eq!(message_text("héllo".as_bytes().to_vec()).unwrap(), "héllo");
    assert!(message_text(vec![0x80]).is_err());
    let _ = BodyCandidate::default();
}

#[test]
fn offerer_message_conversions() {
    let m: CandidateMessage = CandidateRequest { target_id: "1".to_string(), candidate: "c".to_string() }.into();
    assert_eq!((m.target_id.as_str(), m.candidate.as_str()), ("1", "c"));
    let r: CandidateResponse = CandidateMessage { target_id: "2".to_string(), candidate: "d".to_string() }.into();
    assert_eq!((r.target_id.as_str(), r.candidate.as_str()), ("2", "d"));
    let s: SessionDescriptionMessage = SessionDescription { target_id: "3".to_string(), sdp: sdp(SdpType::Offer, "o") }.into();
    assert_eq!(s.target_id, "3");
    let c: CandidateMessage = Candidate { target_id: "4".to_string(), candidate: "e".to_string() }.into();
    assert_eq!(c.candidate, "e");
}

#[test]
fn posted_offer_is_answered_in_order() {
    let (mut flow, first) = SdpFlow::start(sdp(SdpType::Offer, "o"));
    assert!(matches!(first, SdpStep::SetRemoteDescription(ref d) if d.sdp == "o"));
    assert!(matches!(flow.step(Event::Succeeded), SdpStep::CreateAnswer));
    assert!(matches!(flow.step(Event::AnswerCreated(sdp(SdpType::Answer, "a"))), SdpStep::PostAnswer(ref d) if d.sdp == "a"));
    assert!(matches!(flow.step(Event::Succeeded), SdpStep::SetLocalDescription(ref d) if d.sdp == "a"));
    assert!(matches!(flow.step(Event::Succeeded), SdpStep::SignalPendingCandidates));
    assert!(matches!(flow.step(Event::Succeeded), SdpStep::Finished { answered: true }));
    assert!(matches!(flow.step(Event::Failed), SdpStep::Finished { answered: true }));
}

#[test]
fn posted_offer_stops_at_first_failure() {
    let (mut flow, _) = SdpFlow::start(sdp(SdpType::Offer, "o"));
    assert!(matches!(flow.step(Event::Failed), SdpStep::Finished { answered: false }));
    assert!(matches!(flow.step(Event::Succeeded), SdpStep::Finished { answered: false }));

    let (mut flow, _) = SdpFlow::start(sdp(SdpType::Offer, "o"));
    flow.step(Event::Succeeded);
    flow.step(Event::AnswerCreated(sdp(SdpType::Answer, "a")));
    assert!(matches!(flow.step(Event::Failed), SdpStep::Finished { answered: false }));

    let (mut flow, _) = SdpFlow::start(sdp(SdpType::Offer, "o"));
    flow.step(Event::Succeeded);
    assert!(matches!(flow.step(Event::Succeeded), SdpStep::Finished { answered: false }));
}
