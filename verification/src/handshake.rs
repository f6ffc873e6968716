//! The HTTP handshake of the answering peer that reads its request bodies
//! itself.

use vstd::prelude::*;
use vstd::utf8::{valid_utf8, decode_utf8};
use crate::utf8::string_from_utf8;

verus! {

/// The body of a candidate posted by the other peer.
#[derive(Clone, Debug, Default)]
pub struct CandidateRequest {
    pub candidate: String,
}

/// The most bytes of a request body that are read.
pub const BODY_LIMIT: usize = 2048;

/// The text of a request body, or `None` when it is not valid UTF-8.
pub fn body_text(bytes: Vec<u8>) -> (r: Option<String>)
    ensures
        r is Some <==> valid_utf8(bytes@),
        r matches Some(s) ==> s@ == decode_utf8(bytes@),
{
    match string_from_utf8(bytes) {
        Ok(s) => Some(s),
        Err(_) => None,
    }
}

} // verus!
