use phonex::signal::err::SignalError;
use phonex::signal::match_server::{
    Dispatch, MatchCandidateRequest, MatchRegisterRequest, MatchRequest, MatchResponse,
    MatchSessionDescriptionRequest, Server,
};
use phonex::signal::matching::{self, MatchRegisterRequest as QueuedRegistration, MatchRequestType};
use phonex::signal::message::{Sdp, SdpType};
use tokio::sync::mpsc::{channel, Receiver, Sender};

fn chan() -> (Sender<MatchResponse>, Receiver<MatchResponse>) {
    channel::<MatchResponse>(8)
}

fn register(server: &mut Server, id: &str, chan: Sender<MatchResponse>) -> Result<Dispatch, SignalError> {
    server.handle_request(MatchRequest::Register(MatchRegisterRequest { id: id.to_string(), chan }))
}

fn deliver(server: &Server, d: Dispatch) {
    match d {
        Dispatch::Deliver(slot, response) => server.channel(slot).try_send(response).unwrap(),
        Dispatch::Registered => panic!("nothing to deliver"),
    }
}

#[test]
fn candidate_reaches_the_registered_client() {
    let mut server = Server::new();
    let (tx1, mut rx1) = chan();
    let (tx2, mut rx2) = chan();
    assert!(matches!(register(&mut server, "1", tx1), Ok(Dispatch::Registered)));
    assert!(matches!(register(&mut server, "2", tx2), Ok(Dispatch::Registered)));

    let d = server
        .handle_request(MatchRequest::Candidate(MatchCandidateRequest {
            target_id: "2".to_string(),
            candidate: "c".to_string(),
        }))
        .unwrap();
    deliver(&server, d);
    match rx2.try_recv().unwrap() {
        MatchResponse::Candidate(c) => {
            assert_eq!(c.target_id, "2");
            assert_eq!(c.candidate, "c");
        }
        _ => panic!("expected a candidate"),
    }
    assert!(rx1.try_recv().is_err());
}

#[test]
fn description_reaches_the_registered_client() {
    let mut server = Server::new();
    let (tx1, mut rx1) = chan();
    register(&mut server, "1", tx1).unwrap();
    let d = server
        .handle_request(MatchRequest::SessionDescription(MatchSessionDescriptionRequest {
            target_id: "1".to_string(),
            sdp: Sdp { sdp_type: SdpType::Answer, sdp: "v=0".to_string() },
        }))
        .unwrap();
    deliver(&server, d);
    match rx1.try_recv().unwrap() {
        MatchResponse::SessionDescription(s) => {
            assert_eq!(s.target_id, "1");
            assert_eq!(s.sdp.sdp_type, SdpType::Answer);
            assert_eq!(s.sdp.sdp, "v=0");
        }
        _ => panic!("expected a description"),
    }
}

#[test]
fn unknown_target_is_refused() {
    let mut server = Server::new();
    let (tx1, _rx1) = chan();
    register(&mut server, "1", tx1).unwrap();
    let r = server.handle_request(MatchRequest::Candidate(MatchCandidateRequest {
        target_id: "3".to_string(),
        candidate: "c".to_string(),
    }));
    assert!(matches!(r, Err(SignalError::RegisterNotFound())));
    let r = server.handle_request(MatchRequest::SessionDescription(MatchSessionDescriptionRequest {
        target_id: "3".to_string(),
        sdp: Sdp { sdp_type: SdpType::Offer, sdp: String::new() },
    }));
    assert!(matches!(r, Err(SignalError::RegisterNotFound())));
}

#[test]
fn first_registration_wins() {
    let mut server = Server::new();
    let (first, mut first_rx) = chan();
    let (second, mut second_rx) = chan();
    register(&mut server, "1", first).unwrap();
    assert!(matches!(register(&mut server, "1", second), Err(SignalError::RegisterNotFound())));
    let d = server
        .handle_request(MatchRequest::Candidate(MatchCandidateRequest {
            target_id: "1".to_string(),
            candidate: "c".to_string(),
        }))
        .unwrap();
    deliver(&server, d);
    assert!(first_rx.try_recv().is_ok());
    assert!(second_rx.try_recv().is_err());
}

#[test]
fn slot_lookup() {
    let mut server = Server::new();
    assert_eq!(server.slot_of(&"a".to_string()), None);
    let (tx, _rx) = chan();
    register(&mut server, "a", tx).unwrap();
    let (tx, _rx2) = chan();
    register(&mut server, "b", tx).unwrap();
    assert_eq!(server.slot_of(&"a".to_string()), Some(0));
    assert_eq!(server.slot_of(&"b".to_string()), Some(1));
    assert_eq!(server.slot_of(&"c".to_string()), None);
}

#[test]
fn queue_keeps_complete_registrations_only() {
    let mut queue = matching::Server::new();
    let (tx, mut rx) = channel::<matching::MatchResponse>(4);
    queue.handle_request(matching::MatchRequest {
        request_type: MatchRequestType::Register,
        id: Some("1".to_string()),
        chan: Some(tx.clone()),
    });
    queue.handle_request(matching::MatchRequest {
        request_type: MatchRequestType::Register,
        id: None,
        chan: Some(tx),
    });
    queue.handle_request(matching::MatchRequest {
        request_type: MatchRequestType::Register,
        id: Some("2".to_string()),
        chan: None,
    });
    assert_eq!(queue.len(), 1);
    queue.channel(0).try_send(matching::MatchResponse { id: "1".to_string() }).unwrap();
    assert_eq!(rx.try_recv().unwrap().id, "1");
}

#[test]
fn incomplete_registration_is_refused() {
    let (tx, _rx) = channel::<matching::MatchResponse>(1);
    let ok = QueuedRegistration::try_from(matching::MatchRequest {
        request_type: MatchRequestType::Register,
        id: Some("5".to_string()),
        chan: Some(tx),
    });
    assert_eq!(ok.unwrap().id, "5");
    let missing = QueuedRegistration::try_from(matching::MatchRequest {
        request_type: MatchRequestType::Register,
        id: Some("5".to_string()),
        chan: None,
    });
    assert!(missing.is_err());
}
