//! The routing server: clients register under an id with the channel their
//! connection listens on, and session descriptions and ICE candidates are
//! delivered to the client whose id they name.

use vstd::prelude::*;
use tokio::sync::mpsc::Sender;
use crate::signal::err::SignalError;
use crate::signal::message::{Sdp, SessionDescriptionMessage, CandidateMessage};

verus! {

/// A client asks to be reached under `id` through `chan`.
pub struct MatchRegisterRequest {
    pub id: String,
    pub chan: Sender<MatchResponse>,
}

/// A session description to deliver to the client `target_id`.
#[derive(Clone, Debug)]
pub struct MatchSessionDescriptionRequest {
    pub target_id: String,
    pub sdp: Sdp,
}

/// An ICE candidate to deliver to the client `target_id`.
#[derive(Clone, Debug)]
pub struct MatchCandidateRequest {
    pub target_id: String,
    pub candidate: String,
}

/// A request to the routing server.
pub enum MatchRequest {
    Register(MatchRegisterRequest),
    SessionDescription(MatchSessionDescriptionRequest),
    Candidate(MatchCandidateRequest),
}

/// A session description delivered to the client `target_id`.
#[derive(Clone, Debug)]
pub struct MatchSessionDescriptionResponse {
    pub target_id: String,
    pub sdp: Sdp,
}

/// An ICE candidate delivered to the client `target_id`.
#[derive(Clone, Debug)]
pub struct MatchCandidateResponse {
    pub target_id: String,
    pub candidate: String,
}

/// What the routing server delivers to a client.
#[derive(Clone, Debug)]
pub enum MatchResponse {
    SessionDescription(MatchSessionDescriptionResponse),
    Candidate(MatchCandidateResponse),
}

impl From<SessionDescriptionMessage> for MatchSessionDescriptionRequest {
    fn from(m: SessionDescriptionMessage) -> (r: Self)
        ensures
            r.target_id == m.target_id && r.sdp == m.sdp,
    {
        MatchSessionDescriptionRequest { target_id: m.target_id, sdp: m.sdp }
    }
}

impl vstd::std_specs::convert::FromSpecImpl<SessionDescriptionMessage> for MatchSessionDescriptionRequest {
    open spec fn obeys_from_spec() -> bool {
        true
    }

    open spec fn from_spec(m: SessionDescriptionMessage) -> Self {
        MatchSessionDescriptionRequest { target_id: m.target_id, sdp: m.sdp }
    }
}

impl From<CandidateMessage> for MatchCandidateRequest {
    fn from(m: CandidateMessage) -> (r: Self)
        ensures
            r.target_id == m.target_id && r.candidate == m.candidate,
    {
        MatchCandidateRequest { target_id: m.target_id, candidate: m.candidate }
    }
}

impl vstd::std_specs::convert::FromSpecImpl<CandidateMessage> for MatchCandidateRequest {
    open spec fn obeys_from_spec() -> bool {
        true
    }

    open spec fn from_spec(m: CandidateMessage) -> Self {
        MatchCandidateRequest { target_id: m.target_id, candidate: m.candidate }
    }
}

/// What the driver of the server does after a request was handled.
pub enum Dispatch {
    /// The client was registered; nothing is sent.
    Registered,
    /// Send the response on the channel in the given slot of the server.
    Deliver(usize, MatchResponse),
}

/// The routing table as a map: from an id to the channel registered under it.
pub open spec fn table_of(entries: Seq<(Seq<char>, Sender<MatchResponse>)>) -> Map<Seq<char>, Sender<MatchResponse>>
    decreases entries.len(),
{
    if entries.len() == 0 {
        Map::empty()
    } else {
        table_of(entries.drop_last()).insert(entries.last().0, entries.last().1)
    }
}

/// No id occurs twice among the entries.
pub open spec fn ids_distinct(entries: Seq<(Seq<char>, Sender<MatchResponse>)>) -> bool {
    forall|i: int, j: int|
        0 <= i < entries.len() && 0 <= j < entries.len() && i != j ==> #[trigger] entries[i].0
            != #[trigger] entries[j].0
}

proof fn lemma_table_domain(entries: Seq<(Seq<char>, Sender<MatchResponse>)>, id: Seq<char>)
    ensures
        table_of(entries).contains_key(id) <==> exists|i: int|
            0 <= i < entries.len() && #[trigger] entries[i].0 == id,
    decreases entries.len(),
{
    if entries.len() > 0 {
        let prefix = entries.drop_last();
        lemma_table_domain(prefix, id);
        if table_of(entries).contains_key(id) {
            if id != entries.last().0 {
                let i = choose|i: int| 0 <= i < prefix.len() && #[trigger] prefix[i].0 == id;
                assert(entries[i].0 == id);
            } else {
                assert(entries[entries.len() - 1].0 == id);
            }
        }
        if exists|i: int| 0 <= i < entries.len() && #[trigger] entries[i].0 == id {
            let i = choose|i: int| 0 <= i < entries.len() && #[trigger] entries[i].0 == id;
            if i < entries.len() - 1 {
                assert(prefix[i].0 == id);
            }
        }
    }
}

/// A routing table built from registrations has finitely many ids.
pub proof fn lemma_table_finite(entries: Seq<(Seq<char>, Sender<MatchResponse>)>)
    ensures
        table_of(entries).dom().finite(),
    decreases entries.len(),
{
    if entries.len() > 0 {
        lemma_table_finite(entries.drop_last());
    }
}

proof fn lemma_table_value(entries: Seq<(Seq<char>, Sender<MatchResponse>)>, i: int)
    requires
        ids_distinct(entries),
        0 <= i < entries.len(),
    ensures
        table_of(entries).contains_key(entries[i].0),
        table_of(entries)[entries[i].0] == entries[i].1,
    decreases entries.len(),
{
    let prefix = entries.drop_last();
    if i < entries.len() - 1 {
        assert(prefix[i] == entries[i]);
        assert(ids_distinct(prefix)) by {
            assert forall|a: int, b: int|
                0 <= a < prefix.len() && 0 <= b < prefix.len() && a != b implies #[trigger] prefix[a].0
                != #[trigger] prefix[b].0 by {
                assert(prefix[a] == entries[a] && prefix[b] == entries[b]);
            }
        }
        lemma_table_value(prefix, i);
        assert(entries[i].0 != entries[entries.len() - 1].0);
    }
}

/// The routing table after registrations in the given order, each handled as
/// `Server::handle_request` handles one: a free id is added, a taken id is
/// refused and leaves the table as it was.
pub open spec fn register_all(
    table: Map<Seq<char>, Sender<MatchResponse>>,
    registrations: Seq<(Seq<char>, Sender<MatchResponse>)>,
) -> Map<Seq<char>, Sender<MatchResponse>>
    decreases registrations.len(),
{
    if registrations.len() == 0 {
        table
    } else {
        let before = register_all(table, registrations.drop_last());
        let (id, chan) = registrations.last();
        if before.contains_key(id) {
            before
        } else {
            before.insert(id, chan)
        }
    }
}

/// Handling one more registration, as `Server::handle_request` does, extends
/// a run of registrations by that registration.
pub proof fn lemma_register_one_more(
    table: Map<Seq<char>, Sender<MatchResponse>>,
    registrations: Seq<(Seq<char>, Sender<MatchResponse>)>,
    id: Seq<char>,
    chan: Sender<MatchResponse>,
)
    ensures
        register_all(table, registrations.push((id, chan))) == if register_all(table, registrations).contains_key(id) {
            register_all(table, registrations)
        } else {
            register_all(table, registrations).insert(id, chan)
        },
{
    assert(registrations.push((id, chan)).drop_last() =~= registrations);
}

/// A client that registered is reached through the channel it registered
/// with: a message to its id is delivered there.
pub proof fn lemma_registered_client_reachable(
    table: Map<Seq<char>, Sender<MatchResponse>>,
    id: Seq<char>,
    chan: Sender<MatchResponse>,
)
    requires
        !table.contains_key(id),
    ensures
        table.insert(id, chan).contains_key(id),
        table.insert(id, chan)[id] == chan,
{
}

/// A registration changes the route of no other id.
pub proof fn lemma_registration_keeps_other_routes(
    table: Map<Seq<char>, Sender<MatchResponse>>,
    id: Seq<char>,
    chan: Sender<MatchResponse>,
    other: Seq<char>,
)
    requires
        other != id,
    ensures
        table.insert(id, chan).contains_key(other) == table.contains_key(other),
        table.contains_key(other) ==> table.insert(id, chan)[other] == table[other],
{
}

/// From an empty server, after any sequence of registrations, an id is
/// registered exactly when some registration named it, and it is routed to
/// the channel of the first registration that named it: later registrations
/// under the same id are refused.
pub proof fn lemma_first_registration_wins(registrations: Seq<(Seq<char>, Sender<MatchResponse>)>, id: Seq<char>)
    ensures
        register_all(Map::empty(), registrations).contains_key(id) <==> exists|i: int|
            0 <= i < registrations.len() && #[trigger] registrations[i].0 == id,
        forall|i: int|
            0 <= i < registrations.len() && #[trigger] registrations[i].0 == id && (forall|j: int|
                0 <= j < i ==> registrations[j].0 != id) ==> register_all(Map::empty(), registrations)[id]
                == registrations[i].1,
    decreases registrations.len(),
{
    if registrations.len() > 0 {
        let prefix = registrations.drop_last();
        let last = registrations.len() - 1;
        lemma_first_registration_wins(prefix, id);
        let before = register_all(Map::empty(), prefix);
        assert forall|i: int| 0 <= i < last implies #[trigger] registrations[i] == prefix[i] by {}
        if register_all(Map::empty(), registrations).contains_key(id) {
            if before.contains_key(id) {
                let i = choose|i: int| 0 <= i < prefix.len() && #[trigger] prefix[i].0 == id;
                assert(registrations[i].0 == id);
            } else {
                assert(registrations[last].0 == id);
            }
        }
        if exists|i: int| 0 <= i < registrations.len() && #[trigger] registrations[i].0 == id {
            let i = choose|i: int| 0 <= i < registrations.len() && #[trigger] registrations[i].0 == id;
            if i < last {
                assert(prefix[i].0 == id);
            }
        }
        assert forall|i: int|
            0 <= i < registrations.len() && #[trigger] registrations[i].0 == id && (forall|j: int|
                0 <= j < i ==> registrations[j].0 != id) implies register_all(Map::empty(), registrations)[id]
            == registrations[i].1 by {
            if i < last {
                assert(prefix[i].0 == id);
                assert(forall|j: int| 0 <= j < i ==> prefix[j].0 != id);
            } else {
                assert(forall|j: int| 0 <= j < prefix.len() ==> #[trigger] prefix[j].0 != id);
            }
        }
    }
}

/// The routing server: the registered clients, each id at most once.
pub struct Server {
    response_channels: Vec<(String, Sender<MatchResponse>)>,
}

impl View for Server {
    type V = Map<Seq<char>, Sender<MatchResponse>>;

    /// The routing table: from each registered id to its channel.
    closed spec fn view(&self) -> Map<Seq<char>, Sender<MatchResponse>> {
        table_of(self.entries())
    }
}

impl Server {
    /// The registrations, oldest first.
    pub closed spec fn entries(self) -> Seq<(Seq<char>, Sender<MatchResponse>)> {
        self.response_channels@.map_values(|e: (String, Sender<MatchResponse>)| (e.0@, e.1))
    }

    #[verifier::type_invariant]
    closed spec fn registered_once(self) -> bool {
        ids_distinct(self.entries())
    }

    /// The number of slots.
    pub closed spec fn slots(self) -> nat {
        self.response_channels@.len()
    }

    /// The id registered in slot `i`.
    pub closed spec fn slot_id(self, i: int) -> Seq<char> {
        self.response_channels@[i].0@
    }

    /// The channel registered in slot `i`.
    pub closed spec fn slot_channel(self, i: int) -> Sender<MatchResponse> {
        self.response_channels@[i].1
    }

    /// An empty server.
    pub fn new() -> (s: Self)
        ensures
            s@ == Map::<Seq<char>, Sender<MatchResponse>>::empty(),
            s@.dom().finite(),
    {
        let s = Server { response_channels: Vec::new() };
        assert(s.entries() =~= Seq::empty());
        s
    }

    /// The slot in which `id` is registered, if any.
    pub fn slot_of(&self, id: &String) -> (r: Option<usize>)
        ensures
            r is None <==> !self@.contains_key(id@),
            r matches Some(i) ==> i < self.slots() && self.slot_id(i as int) == id@
                && self.slot_channel(i as int) == self@[id@],
    {
        proof {
            use_type_invariant(&*self);
        }
        let n = self.response_channels.len();
        let mut i: usize = 0;
        while i < n
            invariant
                n == self.response_channels@.len(),
                i <= n,
                ids_distinct(self.entries()),
                forall|j: int| 0 <= j < i ==> self.entries()[j].0 != id@,
            decreases n - i,
        {
            if self.response_channels[i].0 == *id {
                proof {
                    assert(self.entries()[i as int] == (self.response_channels@[i as int].0@, self.response_channels@[i as int].1));
                    lemma_table_value(self.entries(), i as int);
                }
                return Some(i);
            }
            i = i + 1;
        }
        proof {
            lemma_table_domain(self.entries(), id@);
        }
        None
    }

    /// The channel in slot `i`.
    pub fn channel(&self, i: usize) -> (c: &Sender<MatchResponse>)
        requires
            i < self.slots(),
        ensures
            *c == self.slot_channel(i as int),
    {
        &self.response_channels[i].1
    }

    /// Handles one request.
    ///
    /// A registration under a free id adds the client; under a taken id it is
    /// refused and the first registration stays. A session description or a
    /// candidate is delivered to the channel of the client it names, or
    /// refused when no client registered that id; it changes no registration.
    pub fn handle_request(&mut self, request: MatchRequest) -> (r: Result<Dispatch, SignalError>)
        ensures
            final(self)@.dom().finite(),
            forall|id: Seq<char>| #[trigger] old(self)@.contains_key(id) ==> final(self)@.contains_key(id)
                && final(self)@[id] == old(self)@[id],
            final(self)@.dom().len() <= old(self)@.dom().len() + 1,
            match request {
                MatchRequest::Register(v) => if old(self)@.contains_key(v.id@) {
                    r matches Err(SignalError::RegisterNotFound()) && final(self)@ == old(self)@
                } else {
                    r matches Ok(Dispatch::Registered) && final(self)@ == old(self)@.insert(v.id@, v.chan)
                },
                MatchRequest::SessionDescription(v) => *final(self) == *old(self) && if old(self)@.contains_key(v.target_id@) {
                    r matches Ok(Dispatch::Deliver(slot, response)) && slot < final(self).slots()
                        && final(self).slot_id(slot as int) == v.target_id@
                        && final(self).slot_channel(slot as int) == old(self)@[v.target_id@]
                        && response == MatchResponse::SessionDescription(MatchSessionDescriptionResponse {
                            target_id: v.target_id,
                            sdp: v.sdp,
                        })
                } else {
                    r matches Err(SignalError::RegisterNotFound())
                },
                MatchRequest::Candidate(v) => *final(self) == *old(self) && if old(self)@.contains_key(v.target_id@) {
                    r matches Ok(Dispatch::Deliver(slot, response)) && slot < final(self).slots()
                        && final(self).slot_id(slot as int) == v.target_id@
                        && final(self).slot_channel(slot as int) == old(self)@[v.target_id@]
                        && response == MatchResponse::Candidate(MatchCandidateResponse {
                            target_id: v.target_id,
                            candidate: v.candidate,
                        })
                } else {
                    r matches Err(SignalError::RegisterNotFound())
                },
            },
    {
        proof {
            use_type_invariant(&*self);
            lemma_table_finite(self.entries());
        }
        match request {
            MatchRequest::Register(value) => {
                if self.slot_of(&value.id).is_some() {
                    return Err(SignalError::RegisterNotFound());
                }
                let ghost before = self.entries();
                let ghost id = value.id@;
                let ghost chan = value.chan;
                proof {
                    lemma_table_domain(before, id);
                }
                let mut channels = Vec::new();
                std::mem::swap(&mut channels, &mut self.response_channels);
                channels.push((value.id, value.chan));
                proof {
                    let after = channels@.map_values(|e: (String, Sender<MatchResponse>)| (e.0@, e.1));
                    assert(after =~= before.push((id, chan)));
                    assert(ids_distinct(after)) by {
                        assert forall|a: int, b: int|
                            0 <= a < after.len() && 0 <= b < after.len() && a != b implies #[trigger] after[a].0
                            != #[trigger] after[b].0 by {
                            if a == before.len() as int {
                                assert(before[b].0 != id);
                            } else if b == before.len() as int {
                                assert(before[a].0 != id);
                            } else {
                                assert(before[a] == after[a] && before[b] == after[b]);
                            }
                        }
                    }
                    assert(after.drop_last() =~= before);
                    lemma_table_finite(after);
                }
                self.response_channels = channels;
                Ok(Dispatch::Registered)
            },
            MatchRequest::SessionDescription(value) => {
                match self.slot_of(&value.target_id) {
                    None => Err(SignalError::RegisterNotFound()),
                    Some(slot) => Ok(Dispatch::Deliver(
                        slot,
                        MatchResponse::SessionDescription(MatchSessionDescriptionResponse {
                            target_id: value.target_id,
                            sdp: value.sdp,
                        }),
                    )),
                }
            },
            MatchRequest::Candidate(value) => {
                match self.slot_of(&value.target_id) {
                    None => Err(SignalError::RegisterNotFound()),
                    Some(slot) => Ok(Dispatch::Deliver(
                        slot,
                        MatchResponse::Candidate(MatchCandidateResponse {
                            target_id: value.target_id,
                            candidate: value.candidate,
                        }),
                    )),
                }
            },
        }
    }
}

} // verus!
