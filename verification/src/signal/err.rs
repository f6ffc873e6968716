use vstd::prelude::*;

verus! {

/// Errors of the signalling logic.
#[derive(Debug)]
pub enum SignalError {
    /// A message could not be read from its JSON text.
    DeserializeJSONError(serde_json::Error),
    /// A message could not be written as JSON text.
    SerializeToJSONError(serde_json::Error),
    /// A binary websocket frame held no valid UTF-8 text.
    ConvertToStringError(std::string::FromUtf8Error),
    /// A client registered an id that is taken, or a message named a target
    /// that no client registered.
    RegisterNotFound(),
    /// The payload of a new message could not be written as JSON text.
    FromJSONError(serde_json::Error),
    /// A message could not be written as JSON text.
    ToJSONError(serde_json::Error),
}

} // verus!
