//! The in-process channels that carry requests and responses between the
//! connection handlers and the routing server.

use vstd::prelude::*;
use tokio::sync::mpsc::Sender;
use crate::signal::match_server::{MatchRegisterRequest, MatchSessionDescriptionRequest};

verus! {

#[verifier::external_type_specification]
#[verifier::external_body]
#[verifier::reject_recursive_types(T)]
pub struct ExSender<T>(tokio::sync::mpsc::Sender<T>);

/// The channels a websocket route hands registrations and session
/// descriptions to.
pub struct WsChannel {
    pub register_sender: Sender<MatchRegisterRequest>,
    pub sdp_sender: Sender<MatchSessionDescriptionRequest>,
}

} // verus!
