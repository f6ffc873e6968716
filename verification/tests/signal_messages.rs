use phonex::signal::err::SignalError;
use phonex::signal::handler::{binary_text, response_text, socket_flow, RequestHandler, SocketEvent};
use phonex::signal::match_server::{
    MatchCandidateRequest, MatchCandidateResponse, MatchRequest, MatchResponse,
    MatchSessionDescriptionRequest, MatchSessionDescriptionResponse,
};
use phonex::signal::message::{
    candidate_json, message_json, register_json, sdp_json, session_description_json,
    CandidateMessage, Message, Payload, RegisterMessage, RequestType, Sdp, SdpType,
    SessionDescriptionMessage,
};

fn offer(text: &str) -> Sdp {
    Sdp { sdp_type: SdpType::Offer, sdp: text.to_string() }
}

#[test]
fn register_message_carries_its_id_as_json() {
    let m = Message::new_register_message("2".to_string()).unwrap();
    assert_eq!(m.request_type, RequestType::Register);
    assert_eq!(m.raw, r#"{"id":"2"}"#);
}

#[test]
fn register_message_text_is_double_encoded() {
    let m = Message::new_register_message("2".to_string()).unwrap();
    let text = m.try_to_string().unwrap();
    assert_eq!(text, r#"{"request_type":"Register","raw":"{\"id\":\"2\"}"}"#);
}

#[test]
fn candidate_message_fields_in_order() {
    let m = Message::new_candidate_message("1".to_string(), "candidate:1 1 udp".to_string()).unwrap();
    assert_eq!(m.request_type, RequestType::Candidate);
    assert_eq!(m.raw, r#"{"target_id":"1","candidate":"candidate:1 1 udp"}"#);
}

#[test]
fn session_description_message_nests_the_description() {
    let m = Message::new_session_description_message("1".to_string(), offer("v=0\r\n")).unwrap();
    assert_eq!(m.request_type, RequestType::SessionDescription);
    assert_eq!(m.raw, r#"{"target_id":"1","sdp":{"type":"offer","sdp":"v=0\r\n"}}"#);
}

#[test]
fn sdp_type_names() {
    let names = [
        (SdpType::Unspecified, r#"{"type":"Unspecified","sdp":""}"#),
        (SdpType::Offer, r#"{"type":"offer","sdp":""}"#),
        (SdpType::Pranswer, r#"{"type":"pranswer","sdp":""}"#),
        (SdpType::Answer, r#"{"type":"answer","sdp":""}"#),
        (SdpType::Rollback, r#"{"type":"rollback","sdp":""}"#),
    ];
    for (t, expected) in names {
        let d = Sdp { sdp_type: t, sdp: String::new() };
        assert_eq!(d.to_json().unwrap(), expected);
    }
}

#[test]
fn quoting_escapes_quotes_backslashes_and_controls() {
    let m = Message { request_type: RequestType::Ping, raw: "a\"b\\c\nd\u{1}".to_string() };
    assert_eq!(m.try_to_string().unwrap(), "{\"request_type\":\"Ping\",\"raw\":\"a\\\"b\\\\c\\nd\\u0001\"}");
}

#[test]
fn non_ascii_is_written_as_is() {
    let m = RegisterMessage { id: "é✓".to_string() };
    assert_eq!(m.to_json().unwrap(), "{\"id\":\"é✓\"}");
}

#[test]
fn framing_helpers() {
    assert_eq!(message_json(RequestType::Pong, "\"x\""), r#"{"request_type":"Pong","raw":"x"}"#);
    assert_eq!(register_json("\"a\""), r#"{"id":"a"}"#);
    assert_eq!(candidate_json("\"t\"", "\"c\""), r#"{"target_id":"t","candidate":"c"}"#);
    assert_eq!(sdp_json(SdpType::Answer, "\"s\""), r#"{"type":"answer","sdp":"s"}"#);
    assert_eq!(session_description_json("\"t\"", "{}"), r#"{"target_id":"t","sdp":{}}"#);
}

#[test]
fn request_type_names() {
    assert_eq!(RequestType::Ping.tag(), "\"Ping\"");
    assert_eq!(RequestType::Pong.tag(), "\"Pong\"");
    assert_eq!(RequestType::Register.tag(), "\"Register\"");
    assert_eq!(RequestType::SessionDescription.tag(), "\"SessionDescription\"");
    assert_eq!(RequestType::Candidate.tag(), "\"Candidate\"");
}

#[test]
fn candidate_payload_text() {
    let m = CandidateMessage { target_id: "9".to_string(), candidate: "c".to_string() };
    assert_eq!(m.to_json().unwrap(), r#"{"target_id":"9","candidate":"c"}"#);
    let s = SessionDescriptionMessage { target_id: "9".to_string(), sdp: offer("o") };
    assert_eq!(s.to_json().unwrap(), r#"{"target_id":"9","sdp":{"type":"offer","sdp":"o"}}"#);
}

#[test]
fn response_text_for_a_description() {
    let r = MatchResponse::SessionDescription(MatchSessionDescriptionResponse {
        target_id: "2".to_string(),
        sdp: offer("v"),
    });
    assert_eq!(
        response_text(r).unwrap(),
        r#"{"request_type":"SessionDescription","raw":"{\"target_id\":\"2\",\"sdp\":{\"type\":\"offer\",\"sdp\":\"v\"}}"}"#
    );
}

#[test]
fn response_text_for_a_candidate() {
    let r = MatchResponse::Candidate(MatchCandidateResponse {
        target_id: "1".to_string(),
        candidate: "c".to_string(),
    });
    assert_eq!(
        response_text(r).unwrap(),
        r#"{"request_type":"Candidate","raw":"{\"target_id\":\"1\",\"candidate\":\"c\"}"}"#
    );
}

#[test]
fn binary_frames_are_decoded_as_utf8() {
    assert_eq!(binary_text(vec![0x68, 0x69]).unwrap(), "hi");
    assert_eq!(binary_text("é".as_bytes().to_vec()).unwrap(), "é");
    assert!(matches!(binary_text(vec![0xff, 0x00]), Err(SignalError::ConvertToStringError(_))));
}

#[test]
fn socket_reading_stops_on_close_failure_or_failed_handling() {
    assert!(socket_flow(SocketEvent::Text { handled: true }).is_continue());
    assert!(socket_flow(SocketEvent::Text { handled: false }).is_break());
    assert!(socket_flow(SocketEvent::Binary { handled: true }).is_continue());
    assert!(socket_flow(SocketEvent::Binary { handled: false }).is_break());
    assert!(socket_flow(SocketEvent::Ping).is_continue());
    assert!(socket_flow(SocketEvent::Pong).is_continue());
    assert!(socket_flow(SocketEvent::Close).is_break());
    assert!(socket_flow(SocketEvent::Failed).is_break());
}

#[test]
fn registration_names_the_connection_channel() {
    let (req_tx, mut req_rx) = tokio::sync::mpsc::channel::<MatchRequest>(4);
    let (res_tx, mut res_rx) = tokio::sync::mpsc::channel::<MatchResponse>(4);
    let handler = RequestHandler::new(req_tx, res_tx);
    let (sender, request) = handler
        .request_for(Payload::Register(RegisterMessage { id: "7".to_string() }))
        .unwrap();
    match &request {
        MatchRequest::Register(v) => {
            assert_eq!(v.id, "7");
            v.chan
                .try_send(MatchResponse::Candidate(MatchCandidateResponse {
                    target_id: "7".to_string(),
                    candidate: "x".to_string(),
                }))
                .unwrap();
        }
        _ => panic!("expected a registration"),
    }
    assert!(matches!(res_rx.try_recv().unwrap(), MatchResponse::Candidate(c) if c.candidate == "x"));
    sender.try_send(request).unwrap();
    assert!(matches!(req_rx.try_recv().unwrap(), MatchRequest::Register(_)));
}

#[test]
fn descriptions_and_candidates_are_passed_on() {
    let (req_tx, _req_rx) = tokio::sync::mpsc::channel::<MatchRequest>(4);
    let (res_tx, _res_rx) = tokio::sync::mpsc::channel::<MatchResponse>(4);
    let handler = RequestHandler::new(req_tx.clone(), res_tx.clone());
    let (_, request) = handler
        .request_for(Payload::SessionDescription(SessionDescriptionMessage {
            target_id: "1".to_string(),
            sdp: offer("o"),
        }))
        .unwrap();
    assert!(matches!(request, MatchRequest::SessionDescription(v) if v.target_id == "1" && v.sdp.sdp == "o"));

    let handler = RequestHandler::new(req_tx.clone(), res_tx.clone());
    let (_, request) = handler
        .request_for(Payload::Candidate(CandidateMessage {
            target_id: "2".to_string(),
            candidate: "c".to_string(),
        }))
        .unwrap();
    assert!(matches!(request, MatchRequest::Candidate(v) if v.target_id == "2" && v.candidate == "c"));

    let handler = RequestHandler::new(req_tx.clone(), res_tx.clone());
    assert!(handler.request_for(Payload::Ping).is_none());
    let handler = RequestHandler::new(req_tx, res_tx);
    assert!(handler.request_for(Payload::Pong).is_none());
}

#[test]
fn message_conversions_keep_fields() {
    let r: MatchSessionDescriptionRequest = SessionDescriptionMessage {
        target_id: "1".to_string(),
        sdp: offer("o"),
    }
    .into();
    assert_eq!(r.target_id, "1");
    assert_eq!(r.sdp.sdp, "o");
    let c: MatchCandidateRequest = CandidateMessage { target_id: "2".to_string(), candidate: "c".to_string() }.into();
    assert_eq!(c.target_id, "2");
    assert_eq!(c.candidate, "c");
}
