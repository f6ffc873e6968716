//! The registration queue: clients hand in their response channel, and the
//! server keeps every channel that came with a complete registration.

use vstd::prelude::*;
use tokio::sync::mpsc::Sender;

verus! {

/// The kind of a request to the registration queue.
#[derive(Clone, Copy, Debug, PartialEq, Eq, Structural)]
pub enum MatchRequestType {
    Register,
}

/// A request as it arrives: the id and the channel may be missing.
pub struct MatchRequest {
    pub request_type: MatchRequestType,
    pub id: Option<String>,
    pub chan: Option<Sender<MatchResponse>>,
}

/// A complete registration: an id and the channel to answer on.
pub struct MatchRegisterRequest {
    pub id: String,
    pub chan: Sender<MatchResponse>,
}

/// What the queue answers a client with.
#[derive(Clone, Debug)]
pub struct MatchResponse {
    pub id: String,
}

impl MatchRegisterRequest {
    /// A complete registration from a request, or `Err(())` when the request
    /// lacks its id or its channel.
    pub fn try_from(req: MatchRequest) -> (r: Result<Self, ()>)
        ensures
            r is Ok <==> (req.id is Some && req.chan is Some),
            r matches Ok(v) ==> Some(v.id) == req.id && Some(v.chan) == req.chan,
    {
        match (req.id, req.chan) {
            (Some(id), Some(chan)) => Ok(MatchRegisterRequest { id, chan }),
            _ => Err(()),
        }
    }
}

/// The registration queue: the response channels of the clients, in the
/// order in which they registered.
pub struct Server {
    response_channels: Vec<Sender<MatchResponse>>,
}

impl Server {
    /// The registered channels, oldest first.
    pub closed spec fn channels(self) -> Seq<Sender<MatchResponse>> {
        self.response_channels@
    }

    /// An empty queue.
    pub fn new() -> (s: Self)
        ensures
            s.channels() == Seq::<Sender<MatchResponse>>::empty(),
    {
        Server { response_channels: Vec::new() }
    }

    /// Keeps the channel of a complete registration; ignores an incomplete one.
    pub fn handle_request(&mut self, request: MatchRequest)
        ensures
            (request.id is Some && request.chan is Some) ==> final(self).channels()
                == old(self).channels().push(request.chan->0),
            !(request.id is Some && request.chan is Some) ==> final(self).channels()
                == old(self).channels(),
    {
        match request.request_type {
            MatchRequestType::Register => {
                let value = MatchRegisterRequest::try_from(request);
                if let Ok(v) = value {
                    self.response_channels.push(v.chan);
                }
            },
        }
    }

    /// The number of registered channels.
    pub fn len(&self) -> (n: usize)
        ensures
            n == self.channels().len(),
    {
        self.response_channels.len()
    }

    /// The channel registered in position `i`.
    pub fn channel(&self, i: usize) -> (c: &Sender<MatchResponse>)
        requires
            i < self.channels().len(),
        ensures
            *c == self.channels()[i as int],
    {
        &self.response_channels[i]
    }
}

} // verus!
