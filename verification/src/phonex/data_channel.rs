//! Messages received on the data channel.

use vstd::prelude::*;
use vstd::utf8::{valid_utf8, decode_utf8};
use crate::phonex::err::PhonexError;
use crate::utf8::string_from_utf8;

verus! {

/// The text of a data channel message.
pub fn message_text(data: Vec<u8>) -> (r: Result<String, PhonexError>)
    ensures
        r is Ok <==> valid_utf8(data@),
        r matches Ok(s) ==> s@ == decode_utf8(data@),
{
    match string_from_utf8(data) {
        Ok(s) => Ok(s),
        Err(e) => Err(PhonexError::ConvertByteToString(e)),
    }
}

} // verus!
