use vstd::prelude::*;

verus! {

/// Errors of the offering peer's own logic.
#[derive(Debug)]
pub enum PhonexError {
    /// A data channel message held no valid UTF-8 text.
    ConvertByteToString(std::string::FromUtf8Error),
}

} // verus!
