//! Decisions that every peer makes about its connection: which ICE
//! candidates wait for the remote description and which are signalled at
//! once, and when a change of the connection state ends the session.

use vstd::prelude::*;

verus! {

/// The STUN server the peers gather their candidates through.
pub const STUN_SERVER: &'static str = "stun:stun.l.google.com:19302";

/// The label of the data channel the offering peer opens.
pub const DATA_CHANNEL_LABEL: &'static str = "data";

/// The length of the random text a peer sends on an open data channel.
pub const RANDOM_MESSAGE_LEN: usize = 15;

/// The seconds between two such texts.
pub const SEND_INTERVAL_SECS: u64 = 5;

/// The ICE candidates gathered while the remote description was not yet set,
/// in the order they were gathered.
pub struct PendingCandidates<T> {
    pending: Vec<T>,
}

impl<T> View for PendingCandidates<T> {
    type V = Seq<T>;

    /// The waiting candidates, oldest first.
    closed spec fn view(&self) -> Seq<T> {
        self.pending@
    }
}

impl<T> PendingCandidates<T> {
    /// No candidate waits.
    pub fn new() -> (q: Self)
        ensures
            q@ == Seq::<T>::empty(),
    {
        PendingCandidates { pending: Vec::new() }
    }

    /// Handles a newly gathered candidate (`None` marks the end of gathering).
    ///
    /// While the remote description is not set, the candidate waits; once it
    /// is set, the candidate is returned to be signalled at once.
    pub fn on_candidate(&mut self, candidate: Option<T>, remote_description_set: bool) -> (now: Option<T>)
        ensures
            final(self)@ == gather_step(old(self)@, candidate, remote_description_set).0,
            now == gather_step(old(self)@, candidate, remote_description_set).1,
    {
        match candidate {
            None => None,
            Some(c) => {
                if remote_description_set {
                    Some(c)
                } else {
                    self.pending.push(c);
                    None
                }
            },
        }
    }

    /// The waiting candidates, to be signalled once the remote description is
    /// set.
    pub fn pending(&self) -> (r: &Vec<T>)
        ensures
            r@ == self@,
    {
        &self.pending
    }
}

/// One gathered candidate: the waiting queue after it, and the candidate to
/// signal at once, if any.
pub open spec fn gather_step<T>(pending: Seq<T>, candidate: Option<T>, remote_description_set: bool) -> (Seq<T>, Option<T>) {
    match candidate {
        None => (pending, None),
        Some(c) => if remote_description_set {
            (pending, Some(c))
        } else {
            (pending.push(c), None)
        },
    }
}

/// A run of gatherings: the waiting queue after it, and the candidates
/// signalled at once, in order.
pub open spec fn gather_all<T>(pending: Seq<T>, events: Seq<(Option<T>, bool)>) -> (Seq<T>, Seq<T>)
    decreases events.len(),
{
    if events.len() == 0 {
        (pending, Seq::empty())
    } else {
        let (queue, sent) = gather_all(pending, events.drop_last());
        let (c, set) = events.last();
        let (queue2, now) = gather_step(queue, c, set);
        match now {
            Some(x) => (queue2, sent.push(x)),
            None => (queue2, sent),
        }
    }
}

/// The candidates of a run of gatherings, in order.
pub open spec fn gathered<T>(events: Seq<(Option<T>, bool)>) -> Seq<T>
    decreases events.len(),
{
    if events.len() == 0 {
        Seq::empty()
    } else {
        match events.last().0 {
            Some(c) => gathered(events.drop_last()).push(c),
            None => gathered(events.drop_last()),
        }
    }
}

/// Once set, the remote description stays set.
pub open spec fn stays_set<T>(events: Seq<(Option<T>, bool)>) -> bool {
    forall|i: int, j: int| 0 <= i <= j < events.len() && #[trigger] events[i].1 ==> #[trigger] events[j].1
}

proof fn lemma_nothing_signalled_before_set<T>(pending: Seq<T>, events: Seq<(Option<T>, bool)>)
    requires
        forall|i: int| 0 <= i < events.len() ==> !#[trigger] events[i].1,
    ensures
        gather_all(pending, events).1 == Seq::<T>::empty(),
    decreases events.len(),
{
    if events.len() > 0 {
        let prefix = events.drop_last();
        assert forall|i: int| 0 <= i < prefix.len() implies !#[trigger] prefix[i].1 by {
            assert(prefix[i] == events[i]);
        }
        lemma_nothing_signalled_before_set(pending, prefix);
        assert(!events[events.len() - 1].1);
    }
}

/// No gathered candidate is lost or taken twice, and the order of gathering
/// is kept: when the remote description, once set, stays set, the waiting
/// queue followed by the candidates handed out to be signalled at once is the
/// sequence of all gathered candidates. (Sending the waiting queue once the
/// remote description is set is the driver's part.)
pub proof fn lemma_every_candidate_signalled_once<T>(events: Seq<(Option<T>, bool)>)
    requires
        stays_set(events),
    ensures
        gather_all(Seq::<T>::empty(), events).0 + gather_all(Seq::<T>::empty(), events).1 == gathered(events),
    decreases events.len(),
{
    if events.len() > 0 {
        let prefix = events.drop_last();
        let last = events.len() - 1;
        assert forall|i: int, j: int| 0 <= i <= j < prefix.len() && #[trigger] prefix[i].1 implies #[trigger] prefix[j].1 by {
            assert(prefix[i] == events[i] && prefix[j] == events[j]);
        }
        lemma_every_candidate_signalled_once(prefix);
        let (queue, sent) = gather_all(Seq::<T>::empty(), prefix);
        let (c, set) = events[last];
        match c {
            None => {},
            Some(x) => {
                if set {
                    assert(queue + sent.push(x) =~= (queue + sent).push(x));
                } else {
                    assert forall|i: int| 0 <= i < prefix.len() implies !#[trigger] prefix[i].1 by {
                        assert(prefix[i] == events[i]);
                    }
                    lemma_nothing_signalled_before_set(Seq::<T>::empty(), prefix);
                    assert(queue + sent =~= queue);
                    assert(queue.push(x) + sent =~= (queue + sent).push(x));
                }
            },
        }
    }
}

/// Once the remote description is set, no candidate waits any more.
pub proof fn lemma_no_waiting_once_set<T>(pending: Seq<T>, candidate: Option<T>)
    ensures
        gather_step(pending, candidate, true).0 == pending,
{
}

/// The states of a peer connection.
#[derive(Clone, Copy, Debug, PartialEq, Eq, Structural)]
pub enum PeerConnectionState {
    Unspecified,
    New,
    Connecting,
    Connected,
    Disconnected,
    Failed,
    Closed,
}

/// Whether a change to this state ends the session: only a failed
/// connection does.
pub fn ends_session(state: PeerConnectionState) -> (r: bool)
    ensures
        r <==> state == PeerConnectionState::Failed,
{
    match state {
        PeerConnectionState::Failed => true,
        _ => false,
    }
}

} // verus!
