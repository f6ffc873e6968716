//! Wire messages of the signalling protocol and the JSON text they travel as.
//!
//! A [`Message`] carries a request type and, in `raw`, the JSON text of the
//! payload that goes with it. Field order and spelling follow the text that
//! serde_json writes for these messages.

use vstd::prelude::*;
use crate::json::{json_quote, quote, concat3, concat5, read_string, lemma_quote_reads_back, lemma_read_plain};
use crate::signal::err::SignalError;

verus! {

/// The kind of a signalling message.
#[derive(Clone, Copy, Debug, PartialEq, Eq, Structural)]
pub enum RequestType {
    Ping,
    Pong,
    Register,
    SessionDescription,
    Candidate,
}

/// The type of a session description.
#[derive(Clone, Copy, Debug, PartialEq, Eq, Structural)]
pub enum SdpType {
    Unspecified,
    Offer,
    Pranswer,
    Answer,
    Rollback,
}

/// A session description as it travels between peers: its type and its SDP text.
#[derive(Clone, Debug)]
pub struct Sdp {
    pub sdp_type: SdpType,
    pub sdp: String,
}

/// The envelope of every signalling message.
#[derive(Clone, Debug)]
pub struct Message {
    pub request_type: RequestType,
    pub raw: String,
}

/// Payload of a registration: the id the client wants to be reached under.
#[derive(Clone, Debug)]
pub struct RegisterMessage {
    pub id: String,
}

/// Payload carrying a session description to the client `target_id`.
#[derive(Clone, Debug)]
pub struct SessionDescriptionMessage {
    pub target_id: String,
    pub sdp: Sdp,
}

/// Payload carrying an ICE candidate to the client `target_id`.
#[derive(Clone, Debug)]
pub struct CandidateMessage {
    pub target_id: String,
    pub candidate: String,
}

/// A message with its payload read according to its request type.
#[derive(Clone, Debug)]
pub enum Payload {
    Register(RegisterMessage),
    SessionDescription(SessionDescriptionMessage),
    Candidate(CandidateMessage),
    Ping,
    Pong,
}

/// The JSON text of a request type: its name in double quotes.
pub open spec fn request_type_tag(t: RequestType) -> Seq<char> {
    match t {
        RequestType::Ping => "\"Ping\""@,
        RequestType::Pong => "\"Pong\""@,
        RequestType::Register => "\"Register\""@,
        RequestType::SessionDescription => "\"SessionDescription\""@,
        RequestType::Candidate => "\"Candidate\""@,
    }
}

/// The JSON text of an SDP type.
pub open spec fn sdp_type_tag(t: SdpType) -> Seq<char> {
    match t {
        SdpType::Unspecified => "\"Unspecified\""@,
        SdpType::Offer => "\"offer\""@,
        SdpType::Pranswer => "\"pranswer\""@,
        SdpType::Answer => "\"answer\""@,
        SdpType::Rollback => "\"rollback\""@,
    }
}

/// `{"request_type":<tag>,"raw":<quoted raw>}`
pub open spec fn message_text(tag: Seq<char>, quoted_raw: Seq<char>) -> Seq<char> {
    "{\"request_type\":"@ + tag + ",\"raw\":"@ + quoted_raw + "}"@
}

/// The JSON text of a message of type `t` whose payload text is `raw`.
pub open spec fn envelope_text(t: RequestType, raw: Seq<char>) -> Seq<char> {
    message_text(request_type_tag(t), json_quote(raw))
}

/// `{"id":<quoted id>}`
pub open spec fn register_text(quoted_id: Seq<char>) -> Seq<char> {
    "{\"id\":"@ + quoted_id + "}"@
}

/// `{"target_id":<quoted target>,"candidate":<quoted candidate>}`
pub open spec fn candidate_text(quoted_target: Seq<char>, quoted_candidate: Seq<char>) -> Seq<char> {
    "{\"target_id\":"@ + quoted_target + ",\"candidate\":"@ + quoted_candidate + "}"@
}

/// `{"type":<tag>,"sdp":<quoted sdp>}`
pub open spec fn sdp_text(tag: Seq<char>, quoted_sdp: Seq<char>) -> Seq<char> {
    "{\"type\":"@ + tag + ",\"sdp\":"@ + quoted_sdp + "}"@
}

/// `{"target_id":<quoted target>,"sdp":<sdp object>}`
pub open spec fn session_description_text(quoted_target: Seq<char>, sdp_object: Seq<char>) -> Seq<char> {
    "{\"target_id\":"@ + quoted_target + ",\"sdp\":"@ + sdp_object + "}"@
}

impl RequestType {
    /// The JSON text of this request type.
    pub fn tag(&self) -> (r: &'static str)
        ensures
            r@ == request_type_tag(*self),
    {
        match self {
            RequestType::Ping => "\"Ping\"",
            RequestType::Pong => "\"Pong\"",
            RequestType::Register => "\"Register\"",
            RequestType::SessionDescription => "\"SessionDescription\"",
            RequestType::Candidate => "\"Candidate\"",
        }
    }
}

impl SdpType {
    /// The JSON text of this SDP type.
    pub fn tag(&self) -> (r: &'static str)
        ensures
            r@ == sdp_type_tag(*self),
    {
        match self {
            SdpType::Unspecified => "\"Unspecified\"",
            SdpType::Offer => "\"offer\"",
            SdpType::Pranswer => "\"pranswer\"",
            SdpType::Answer => "\"answer\"",
            SdpType::Rollback => "\"rollback\"",
        }
    }
}

/// Frames a message from its request type and the JSON literal of its payload text.
pub fn message_json(request_type: RequestType, quoted_raw: &str) -> (r: String)
    ensures
        r@ == message_text(request_type_tag(request_type), quoted_raw@),
{
    concat5("{\"request_type\":", request_type.tag(), ",\"raw\":", quoted_raw, "}")
}

/// The registration payload from the JSON literal of its id.
pub fn register_json(quoted_id: &str) -> (r: String)
    ensures
        r@ == register_text(quoted_id@),
{
    concat3("{\"id\":", quoted_id, "}")
}

/// The candidate payload from the JSON literals of its target and candidate.
pub fn candidate_json(quoted_target: &str, quoted_candidate: &str) -> (r: String)
    ensures
        r@ == candidate_text(quoted_target@, quoted_candidate@),
{
    concat5("{\"target_id\":", quoted_target, ",\"candidate\":", quoted_candidate, "}")
}

/// A session description object from its type and the JSON literal of its SDP text.
pub fn sdp_json(sdp_type: SdpType, quoted_sdp: &str) -> (r: String)
    ensures
        r@ == sdp_text(sdp_type_tag(sdp_type), quoted_sdp@),
{
    concat5("{\"type\":", sdp_type.tag(), ",\"sdp\":", quoted_sdp, "}")
}

/// The session description payload from the JSON literal of its target and
/// the JSON object of its description.
pub fn session_description_json(quoted_target: &str, sdp_object: &str) -> (r: String)
    ensures
        r@ == session_description_text(quoted_target@, sdp_object@),
{
    concat5("{\"target_id\":", quoted_target, ",\"sdp\":", sdp_object, "}")
}

impl Sdp {
    /// A copy of this description.
    pub fn duplicate(&self) -> (r: Self)
        ensures
            r == *self,
    {
        Sdp { sdp_type: self.sdp_type, sdp: self.sdp.clone() }
    }

    /// The JSON text of this description.
    pub open spec fn json_text(self) -> Seq<char> {
        sdp_text(sdp_type_tag(self.sdp_type), json_quote(self.sdp@))
    }

    /// Writes this description as JSON text.
    pub fn to_json(&self) -> (r: Result<String, serde_json::Error>)
        ensures
            r is Ok,
            r matches Ok(t) ==> t@ == self.json_text(),
    {
        let q = quote(self.sdp.as_str())?;
        Ok(sdp_json(self.sdp_type, q.as_str()))
    }
}

impl RegisterMessage {
    /// The JSON text of this payload.
    pub open spec fn json_text(self) -> Seq<char> {
        register_text(json_quote(self.id@))
    }

    /// Writes this payload as JSON text.
    pub fn to_json(&self) -> (r: Result<String, serde_json::Error>)
        ensures
            r is Ok,
            r matches Ok(t) ==> t@ == self.json_text(),
    {
        let q = quote(self.id.as_str())?;
        Ok(register_json(q.as_str()))
    }
}

impl CandidateMessage {
    /// The JSON text of this payload.
    pub open spec fn json_text(self) -> Seq<char> {
        candidate_text(json_quote(self.target_id@), json_quote(self.candidate@))
    }

    /// Writes this payload as JSON text.
    pub fn to_json(&self) -> (r: Result<String, serde_json::Error>)
        ensures
            r is Ok,
            r matches Ok(t) ==> t@ == self.json_text(),
    {
        let qt = quote(self.target_id.as_str())?;
        let qc = quote(self.candidate.as_str())?;
        Ok(candidate_json(qt.as_str(), qc.as_str()))
    }
}

impl SessionDescriptionMessage {
    /// The JSON text of this payload.
    pub open spec fn json_text(self) -> Seq<char> {
        session_description_text(json_quote(self.target_id@), self.sdp.json_text())
    }

    /// Writes this payload as JSON text.
    pub fn to_json(&self) -> (r: Result<String, serde_json::Error>)
        ensures
            r is Ok,
            r matches Ok(t) ==> t@ == self.json_text(),
    {
        let qt = quote(self.target_id.as_str())?;
        let sdp = self.sdp.to_json()?;
        Ok(session_description_json(qt.as_str(), sdp.as_str()))
    }
}

impl Message {
    /// The JSON text of this message.
    pub open spec fn json_text(self) -> Seq<char> {
        envelope_text(self.request_type, self.raw@)
    }

    /// A registration message for the client `id`.
    pub fn new_register_message(id: String) -> (r: Result<Self, SignalError>)
        ensures
            r is Ok,
            r matches Ok(m) ==> m.request_type == RequestType::Register
                && m.raw@ == (RegisterMessage { id }).json_text(),
            r matches Err(e) ==> e is FromJSONError,
    {
        let register_message = RegisterMessage { id };
        match register_message.to_json() {
            Ok(raw) => Ok(Message { request_type: RequestType::Register, raw }),
            Err(e) => Err(SignalError::FromJSONError(e)),
        }
    }

    /// A message carrying the session description `sdp` to the client `target_id`.
    pub fn new_session_description_message(target_id: String, sdp: Sdp) -> (r: Result<Self, SignalError>)
        ensures
            r is Ok,
            r matches Ok(m) ==> m.request_type == RequestType::SessionDescription
                && m.raw@ == (SessionDescriptionMessage { target_id, sdp }).json_text(),
            r matches Err(e) ==> e is FromJSONError,
    {
        let session_description_message = SessionDescriptionMessage { target_id, sdp };
        match session_description_message.to_json() {
            Ok(raw) => Ok(Message { request_type: RequestType::SessionDescription, raw }),
            Err(e) => Err(SignalError::FromJSONError(e)),
        }
    }

    /// A message carrying the ICE candidate `candidate` to the client `target_id`.
    pub fn new_candidate_message(target_id: String, candidate: String) -> (r: Result<Self, SignalError>)
        ensures
            r is Ok,
            r matches Ok(m) ==> m.request_type == RequestType::Candidate
                && m.raw@ == (CandidateMessage { target_id, candidate }).json_text(),
            r matches Err(e) ==> e is FromJSONError,
    {
        let candidate_message = CandidateMessage { target_id, candidate };
        match candidate_message.to_json() {
            Ok(raw) => Ok(Message { request_type: RequestType::Candidate, raw }),
            Err(e) => Err(SignalError::FromJSONError(e)),
        }
    }

    /// Writes this message as JSON text.
    pub fn try_to_string(&self) -> (r: Result<String, SignalError>)
        ensures
            r is Ok,
            r matches Ok(t) ==> t@ == self.json_text(),
            r matches Err(e) ==> e is ToJSONError,
    {
        match quote(self.raw.as_str()) {
            Ok(q) => Ok(message_json(self.request_type, q.as_str())),
            Err(e) => Err(SignalError::ToJSONError(e)),
        }
    }
}

/// The name of an SDP type, as it stands between the quotes of its tag.
pub open spec fn sdp_type_name(t: SdpType) -> Seq<char> {
    match t {
        SdpType::Unspecified => "Unspecified"@,
        SdpType::Offer => "offer"@,
        SdpType::Pranswer => "pranswer"@,
        SdpType::Answer => "answer"@,
        SdpType::Rollback => "rollback"@,
    }
}

/// Reads a session description object at the start of `text`, of the form
/// `{"type":<string>,"sdp":<string>}`: the type name, the SDP text, and the
/// text after the object.
pub open spec fn read_sdp_object(text: Seq<char>) -> Option<(Seq<char>, Seq<char>, Seq<char>)> {
    let head = "{\"type\":"@;
    let middle = ",\"sdp\":"@;
    if text.len() >= head.len() && text.take(head.len() as int) == head {
        match read_string(text.skip(head.len() as int)) {
            Some((name, after_name)) => if after_name.len() >= middle.len() && after_name.take(middle.len() as int) == middle {
                match read_string(after_name.skip(middle.len() as int)) {
                    Some((sdp, after_sdp)) => if after_sdp.len() >= 1 && after_sdp[0] == '}' {
                        Some((name, sdp, after_sdp.drop_first()))
                    } else {
                        None
                    },
                    None => None,
                }
            } else {
                None
            },
            None => None,
        }
    } else {
        None
    }
}

/// Reads a session description back from its JSON text: the type name and
/// the SDP text.
pub open spec fn read_sdp(text: Seq<char>) -> Option<(Seq<char>, Seq<char>)> {
    match read_sdp_object(text) {
        Some((name, sdp, rest)) => if rest.len() == 0 {
            Some((name, sdp))
        } else {
            None
        },
        None => None,
    }
}

/// Reads a session description payload back from JSON text of the form
/// `{"target_id":<string>,"sdp":<description object>}`: the target, the type
/// name and the SDP text.
pub open spec fn read_session_description(text: Seq<char>) -> Option<(Seq<char>, Seq<char>, Seq<char>)> {
    let head = "{\"target_id\":"@;
    let middle = ",\"sdp\":"@;
    if text.len() >= head.len() && text.take(head.len() as int) == head {
        match read_string(text.skip(head.len() as int)) {
            Some((target, after_target)) => if after_target.len() >= middle.len() && after_target.take(middle.len() as int)
                == middle {
                match read_sdp_object(after_target.skip(middle.len() as int)) {
                    Some((name, sdp, rest)) => if rest == "}"@ {
                        Some((target, name, sdp))
                    } else {
                        None
                    },
                    None => None,
                }
            } else {
                None
            },
            None => None,
        }
    } else {
        None
    }
}

/// Reads a registration payload back from JSON text of the form
/// `{"id":<string>}`: the id.
pub open spec fn read_register(text: Seq<char>) -> Option<Seq<char>> {
    let head = "{\"id\":"@;
    if text.len() >= head.len() && text.take(head.len() as int) == head {
        match read_string(text.skip(head.len() as int)) {
            Some((id, rest)) => if rest == "}"@ {
                Some(id)
            } else {
                None
            },
            None => None,
        }
    } else {
        None
    }
}

/// The name of a request type, as it stands between the quotes of its tag.
pub open spec fn request_type_name(t: RequestType) -> Seq<char> {
    match t {
        RequestType::Ping => "Ping"@,
        RequestType::Pong => "Pong"@,
        RequestType::Register => "Register"@,
        RequestType::SessionDescription => "SessionDescription"@,
        RequestType::Candidate => "Candidate"@,
    }
}

/// Reads a message back from JSON text of the form
/// `{"request_type":<string>,"raw":<string>}`: the type name and the payload text.
pub open spec fn read_message(text: Seq<char>) -> Option<(Seq<char>, Seq<char>)> {
    let head = "{\"request_type\":"@;
    let middle = ",\"raw\":"@;
    if text.len() >= head.len() && text.take(head.len() as int) == head {
        match read_string(text.skip(head.len() as int)) {
            Some((name, after_name)) => if after_name.len() >= middle.len() && after_name.take(middle.len() as int) == middle {
                match read_string(after_name.skip(middle.len() as int)) {
                    Some((raw, rest)) => if rest == "}"@ {
                        Some((name, raw))
                    } else {
                        None
                    },
                    None => None,
                }
            } else {
                None
            },
            None => None,
        }
    } else {
        None
    }
}

/// Reads a candidate payload back from JSON text of the form
/// `{"target_id":<string>,"candidate":<string>}`: the target and the candidate.
pub open spec fn read_candidate(text: Seq<char>) -> Option<(Seq<char>, Seq<char>)> {
    let head = "{\"target_id\":"@;
    let middle = ",\"candidate\":"@;
    if text.len() >= head.len() && text.take(head.len() as int) == head {
        match read_string(text.skip(head.len() as int)) {
            Some((target, after_target)) => if after_target.len() >= middle.len() && after_target.take(middle.len() as int)
                == middle {
                match read_string(after_target.skip(middle.len() as int)) {
                    Some((candidate, after_candidate)) => if after_candidate == "}"@ {
                        Some((target, candidate))
                    } else {
                        None
                    },
                    None => None,
                }
            } else {
                None
            },
            None => None,
        }
    } else {
        None
    }
}

proof fn lemma_sdp_tag_quotes_name(t: SdpType)
    ensures
        sdp_type_tag(t) == seq!['"'] + sdp_type_name(t) + seq!['"'],
        forall|i: int| 0 <= i < sdp_type_name(t).len() ==> sdp_type_name(t)[i] != '"' && sdp_type_name(t)[i] != '\\',
{
    match t {
        SdpType::Unspecified => {
            reveal_strlit("\"Unspecified\"");
            reveal_strlit("Unspecified");
            assert(sdp_type_tag(t) =~= seq!['"'] + sdp_type_name(t) + seq!['"']);
        },
        SdpType::Offer => {
            reveal_strlit("\"offer\"");
            reveal_strlit("offer");
            assert(sdp_type_tag(t) =~= seq!['"'] + sdp_type_name(t) + seq!['"']);
        },
        SdpType::Pranswer => {
            reveal_strlit("\"pranswer\"");
            reveal_strlit("pranswer");
            assert(sdp_type_tag(t) =~= seq!['"'] + sdp_type_name(t) + seq!['"']);
        },
        SdpType::Answer => {
            reveal_strlit("\"answer\"");
            reveal_strlit("answer");
            assert(sdp_type_tag(t) =~= seq!['"'] + sdp_type_name(t) + seq!['"']);
        },
        SdpType::Rollback => {
            reveal_strlit("\"rollback\"");
            reveal_strlit("rollback");
            assert(sdp_type_tag(t) =~= seq!['"'] + sdp_type_name(t) + seq!['"']);
        },
    }
}

/// A session description object, followed by any text, reads back as its
/// type, its whole SDP text, and that text.
pub proof fn lemma_description_object_reads_back(d: Sdp, rest: Seq<char>)
    ensures
        read_sdp_object(d.json_text() + rest) == Some((sdp_type_name(d.sdp_type), d.sdp@, rest)),
{
    let head = "{\"type\":"@;
    let middle = ",\"sdp\":"@;
    let name = sdp_type_name(d.sdp_type);
    let tag = sdp_type_tag(d.sdp_type);
    let text = d.json_text() + rest;
    lemma_sdp_tag_quotes_name(d.sdp_type);
    let after_name = middle + json_quote(d.sdp@) + seq!['}'] + rest;
    reveal_strlit("}");
    assert("}"@ =~= seq!['}']);
    assert(text =~= head + (tag + after_name));
    assert(text.take(head.len() as int) =~= head);
    assert(text.skip(head.len() as int) =~= tag + after_name);
    assert((tag + after_name).drop_first() =~= name + seq!['"'] + after_name);
    lemma_read_plain(name, after_name);
    assert(after_name.take(middle.len() as int) =~= middle);
    assert(after_name.skip(middle.len() as int) =~= json_quote(d.sdp@) + (seq!['}'] + rest));
    lemma_quote_reads_back(d.sdp@, seq!['}'] + rest);
    assert((seq!['}'] + rest).drop_first() =~= rest);
}

/// The JSON text of a session description reads back as its type and its
/// whole SDP text, whatever the length or content of that text.
pub proof fn lemma_description_reads_back(d: Sdp)
    ensures
        read_sdp(d.json_text()) == Some((sdp_type_name(d.sdp_type), d.sdp@)),
{
    lemma_description_object_reads_back(d, Seq::empty());
    assert(d.json_text() + Seq::<char>::empty() =~= d.json_text());
}

/// The JSON text of a session description payload reads back as its whole
/// target id, and the type and whole SDP text of its description.
pub proof fn lemma_session_description_reads_back(m: SessionDescriptionMessage)
    ensures
        read_session_description(m.json_text()) == Some((m.target_id@, sdp_type_name(m.sdp.sdp_type), m.sdp.sdp@)),
{
    let head = "{\"target_id\":"@;
    let middle = ",\"sdp\":"@;
    let text = m.json_text();
    let after_target = middle + m.sdp.json_text() + "}"@;
    assert(text =~= head + (json_quote(m.target_id@) + after_target));
    assert(text.take(head.len() as int) =~= head);
    assert(text.skip(head.len() as int) =~= json_quote(m.target_id@) + after_target);
    lemma_quote_reads_back(m.target_id@, after_target);
    assert(after_target.take(middle.len() as int) =~= middle);
    assert(after_target.skip(middle.len() as int) =~= m.sdp.json_text() + "}"@);
    lemma_description_object_reads_back(m.sdp, "}"@);
}

/// The JSON text of a registration payload reads back as its whole id.
pub proof fn lemma_register_reads_back(m: RegisterMessage)
    ensures
        read_register(m.json_text()) == Some(m.id@),
{
    let head = "{\"id\":"@;
    let text = m.json_text();
    assert(text =~= head + (json_quote(m.id@) + "}"@));
    assert(text.take(head.len() as int) =~= head);
    assert(text.skip(head.len() as int) =~= json_quote(m.id@) + "}"@);
    lemma_quote_reads_back(m.id@, "}"@);
}

proof fn lemma_request_tag_quotes_name(t: RequestType)
    ensures
        request_type_tag(t) == seq!['"'] + request_type_name(t) + seq!['"'],
        forall|i: int| 0 <= i < request_type_name(t).len() ==> request_type_name(t)[i] != '"' && request_type_name(t)[i] != '\\',
{
    match t {
        RequestType::Ping => {
            reveal_strlit("\"Ping\"");
            reveal_strlit("Ping");
            assert(request_type_tag(t) =~= seq!['"'] + request_type_name(t) + seq!['"']);
        },
        RequestType::Pong => {
            reveal_strlit("\"Pong\"");
            reveal_strlit("Pong");
            assert(request_type_tag(t) =~= seq!['"'] + request_type_name(t) + seq!['"']);
        },
        RequestType::Register => {
            reveal_strlit("\"Register\"");
            reveal_strlit("Register");
            assert(request_type_tag(t) =~= seq!['"'] + request_type_name(t) + seq!['"']);
        },
        RequestType::SessionDescription => {
            reveal_strlit("\"SessionDescription\"");
            reveal_strlit("SessionDescription");
            assert(request_type_tag(t) =~= seq!['"'] + request_type_name(t) + seq!['"']);
        },
        RequestType::Candidate => {
            reveal_strlit("\"Candidate\"");
            reveal_strlit("Candidate");
            assert(request_type_tag(t) =~= seq!['"'] + request_type_name(t) + seq!['"']);
        },
    }
}

/// The JSON text of a message reads back as its request type and its whole
/// payload text.
pub proof fn lemma_message_reads_back(m: Message)
    ensures
        read_message(m.json_text()) == Some((request_type_name(m.request_type), m.raw@)),
{
    let head = "{\"request_type\":"@;
    let middle = ",\"raw\":"@;
    let name = request_type_name(m.request_type);
    let tag = request_type_tag(m.request_type);
    let text = m.json_text();
    lemma_request_tag_quotes_name(m.request_type);
    let after_name = middle + json_quote(m.raw@) + "}"@;
    assert(text =~= head + (tag + after_name));
    assert(text.take(head.len() as int) =~= head);
    assert(text.skip(head.len() as int) =~= tag + after_name);
    assert((tag + after_name).drop_first() =~= name + seq!['"'] + after_name);
    lemma_read_plain(name, after_name);
    assert(after_name.take(middle.len() as int) =~= middle);
    assert(after_name.skip(middle.len() as int) =~= json_quote(m.raw@) + "}"@);
    lemma_quote_reads_back(m.raw@, "}"@);
}

/// The JSON text of a candidate payload reads back as its whole target id
/// and its whole candidate, whatever their length or content.
pub proof fn lemma_candidate_reads_back(m: CandidateMessage)
    ensures
        read_candidate(m.json_text()) == Some((m.target_id@, m.candidate@)),
{
    let head = "{\"target_id\":"@;
    let middle = ",\"candidate\":"@;
    let text = m.json_text();
    let after_target = middle + json_quote(m.candidate@) + "}"@;
    assert(text =~= head + (json_quote(m.target_id@) + after_target));
    assert(text.take(head.len() as int) =~= head);
    assert(text.skip(head.len() as int) =~= json_quote(m.target_id@) + after_target);
    lemma_quote_reads_back(m.target_id@, after_target);
    assert(after_target.take(middle.len() as int) =~= middle);
    assert(after_target.skip(middle.len() as int) =~= json_quote(m.candidate@) + "}"@);
    lemma_quote_reads_back(m.candidate@, "}"@);
}

} // verus!
