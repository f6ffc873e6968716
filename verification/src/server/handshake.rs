//! The HTTP exchange of session descriptions and candidates between two
//! peers: each peer posts to the other's `/sdp` and `/candidate` routes.

use vstd::prelude::*;
use crate::exchange::Event;
use crate::json::concat3;
use crate::signal::message::Sdp;

verus! {

/// The body of a candidate posted to the other peer.
#[derive(Clone, Debug, Default)]
pub struct CandidateRequest {
    pub candidate: String,
}

/// The URL of the other peer's candidate route.
pub fn candidate_url(addr: &str) -> (r: String)
    ensures
        r@ == "http://"@ + addr@ + "/candidate"@,
{
    concat3("http://", addr, "/candidate")
}

/// The URL of the other peer's session description route.
pub fn sdp_url(addr: &str) -> (r: String)
    ensures
        r@ == "http://"@ + addr@ + "/sdp"@,
{
    concat3("http://", addr, "/sdp")
}

/// The body posted for a gathered candidate.
pub fn candidate_request(candidate: String) -> (r: CandidateRequest)
    ensures
        r.candidate == candidate,
{
    CandidateRequest { candidate }
}

/// What the driver of an offer posted to the `/sdp` route does next.
#[derive(Clone, Debug)]
pub enum SdpStep {
    SetRemoteDescription(Sdp),
    CreateAnswer,
    /// Post the answer to the other peer's `/sdp` route.
    PostAnswer(Sdp),
    SetLocalDescription(Sdp),
    /// Post each waiting candidate to the other peer's `/candidate` route.
    SignalPendingCandidates,
    /// The handling is over: `answered` tells whether every step succeeded.
    Finished { answered: bool },
}

/// Where the handling of a posted offer stands.
#[derive(Clone, Debug)]
pub enum SdpStage {
    SettingRemote,
    CreatingAnswer,
    PostingAnswer(Sdp),
    SettingLocal,
    SignallingPending,
    Finished(bool),
}

impl SdpStage {
    /// A copy of this stage.
    pub fn duplicate(&self) -> (r: Self)
        ensures
            r == *self,
    {
        match self {
            SdpStage::SettingRemote => SdpStage::SettingRemote,
            SdpStage::CreatingAnswer => SdpStage::CreatingAnswer,
            SdpStage::PostingAnswer(answer) => SdpStage::PostingAnswer(answer.duplicate()),
            SdpStage::SettingLocal => SdpStage::SettingLocal,
            SdpStage::SignallingPending => SdpStage::SignallingPending,
            SdpStage::Finished(answered) => SdpStage::Finished(*answered),
        }
    }
}

/// The end of a failed step: the handling stops there, unanswered.
pub open spec fn sdp_failed() -> (SdpStage, SdpStep) {
    (SdpStage::Finished(false), SdpStep::Finished { answered: false })
}

/// The transition table of the handling of a posted offer: the remote
/// description is set, an answer is created, posted back, set as the local
/// description, and the waiting candidates follow; the first failed step ends
/// the handling.
pub open spec fn sdp_next(stage: SdpStage, event: Event) -> (SdpStage, SdpStep) {
    match stage {
        SdpStage::SettingRemote => match event {
            Event::Succeeded => (SdpStage::CreatingAnswer, SdpStep::CreateAnswer),
            _ => sdp_failed(),
        },
        SdpStage::CreatingAnswer => match event {
            Event::AnswerCreated(answer) => (SdpStage::PostingAnswer(answer), SdpStep::PostAnswer(answer)),
            _ => sdp_failed(),
        },
        SdpStage::PostingAnswer(answer) => match event {
            Event::Succeeded => (SdpStage::SettingLocal, SdpStep::SetLocalDescription(answer)),
            _ => sdp_failed(),
        },
        SdpStage::SettingLocal => match event {
            Event::Succeeded => (SdpStage::SignallingPending, SdpStep::SignalPendingCandidates),
            _ => sdp_failed(),
        },
        SdpStage::SignallingPending => match event {
            Event::Succeeded => (SdpStage::Finished(true), SdpStep::Finished { answered: true }),
            _ => sdp_failed(),
        },
        SdpStage::Finished(answered) => (SdpStage::Finished(answered), SdpStep::Finished { answered }),
    }
}

/// The steps given for a sequence of reports, starting at `stage`.
pub open spec fn sdp_run(stage: SdpStage, events: Seq<Event>) -> Seq<SdpStep>
    decreases events.len(),
{
    if events.len() == 0 {
        Seq::empty()
    } else {
        let (after, step) = sdp_next(stage, events[0]);
        seq![step] + sdp_run(after, events.drop_first())
    }
}

/// How many steps at most remain from a stage.
pub open spec fn sdp_remaining(stage: SdpStage) -> nat {
    match stage {
        SdpStage::SettingRemote => 5,
        SdpStage::CreatingAnswer => 4,
        SdpStage::PostingAnswer(_) => 3,
        SdpStage::SettingLocal => 2,
        SdpStage::SignallingPending => 1,
        SdpStage::Finished(_) => 0,
    }
}

/// Every step brings the handling closer to its end.
pub proof fn lemma_sdp_handling_ends(stage: SdpStage, event: Event)
    requires
        !(stage is Finished),
    ensures
        sdp_remaining(sdp_next(stage, event).0) < sdp_remaining(stage),
        sdp_next(stage, event).0 is Finished <==> sdp_next(stage, event).1 is Finished,
{
}

/// A failed step ends the handling, unanswered.
pub proof fn lemma_sdp_failure_ends(stage: SdpStage)
    requires
        !(stage is Finished),
    ensures
        sdp_next(stage, Event::Failed) == sdp_failed(),
{
}

/// The answer that is set as the local description is the one posted, and
/// the waiting candidates are signalled only after it was set; the handling
/// succeeds only after they were signalled.
pub proof fn lemma_sdp_order(stage: SdpStage, event: Event, answer: Sdp)
    ensures
        sdp_next(stage, event).1 == SdpStep::SetLocalDescription(answer) ==> stage == SdpStage::PostingAnswer(answer),
        sdp_next(stage, event).1 == SdpStep::PostAnswer(answer) ==> stage == SdpStage::CreatingAnswer
            && event == Event::AnswerCreated(answer),
        sdp_next(stage, event).1 == SdpStep::SignalPendingCandidates ==> stage == SdpStage::SettingLocal,
        !(stage is Finished) && sdp_next(stage, event).1 == (SdpStep::Finished { answered: true })
            ==> stage == SdpStage::SignallingPending,
{
}

/// When every step succeeds, a posted offer is answered: the answer is
/// created, posted, set as the local description, and the waiting
/// candidates follow.
pub proof fn lemma_sdp_answered(answer: Sdp)
    ensures
        sdp_run(
            SdpStage::SettingRemote,
            seq![Event::Succeeded, Event::AnswerCreated(answer), Event::Succeeded, Event::Succeeded, Event::Succeeded],
        ) == seq![
            SdpStep::CreateAnswer,
            SdpStep::PostAnswer(answer),
            SdpStep::SetLocalDescription(answer),
            SdpStep::SignalPendingCandidates,
            SdpStep::Finished { answered: true },
        ],
{
    reveal_with_fuel(sdp_run, 6);
    let events = seq![Event::Succeeded, Event::AnswerCreated(answer), Event::Succeeded, Event::Succeeded, Event::Succeeded];
    assert(events.drop_first() =~= events.subrange(1, 5));
    assert(events.subrange(1, 5).drop_first() =~= events.subrange(2, 5));
    assert(events.subrange(2, 5).drop_first() =~= events.subrange(3, 5));
    assert(events.subrange(3, 5).drop_first() =~= events.subrange(4, 5));
    assert(events.subrange(4, 5).drop_first() =~= Seq::<Event>::empty());
    assert(sdp_run(SdpStage::SettingRemote, events) =~= seq![
        SdpStep::CreateAnswer,
        SdpStep::PostAnswer(answer),
        SdpStep::SetLocalDescription(answer),
        SdpStep::SignalPendingCandidates,
        SdpStep::Finished { answered: true },
    ]);
}

/// The handling of an offer posted to the `/sdp` route.
pub struct SdpFlow {
    stage: SdpStage,
}

impl SdpFlow {
    pub closed spec fn stage(self) -> SdpStage {
        self.stage
    }

    /// Starts handling a posted offer: it is first set as the remote description.
    pub fn start(offer: Sdp) -> (r: (Self, SdpStep))
        ensures
            r.0.stage() == SdpStage::SettingRemote,
            r.1 == SdpStep::SetRemoteDescription(offer),
    {
        (SdpFlow { stage: SdpStage::SettingRemote }, SdpStep::SetRemoteDescription(offer))
    }

    fn fail(&mut self) -> (s: SdpStep)
        ensures
            (final(self).stage(), s) == sdp_failed(),
    {
        self.stage = SdpStage::Finished(false);
        SdpStep::Finished { answered: false }
    }

    /// Takes the report of the last step and gives the next step.
    pub fn step(&mut self, event: Event) -> (s: SdpStep)
        ensures
            (final(self).stage(), s) == sdp_next(old(self).stage(), event),
    {
        match self.stage.duplicate() {
            SdpStage::SettingRemote => match event {
                Event::Succeeded => {
                    self.stage = SdpStage::CreatingAnswer;
                    SdpStep::CreateAnswer
                },
                _ => self.fail(),
            },
            SdpStage::CreatingAnswer => match event {
                Event::AnswerCreated(answer) => {
                    self.stage = SdpStage::PostingAnswer(answer.duplicate());
                    SdpStep::PostAnswer(answer)
                },
                _ => self.fail(),
            },
            SdpStage::PostingAnswer(answer) => match event {
                Event::Succeeded => {
                    self.stage = SdpStage::SettingLocal;
                    SdpStep::SetLocalDescription(answer)
                },
                _ => self.fail(),
            },
            SdpStage::SettingLocal => match event {
                Event::Succeeded => {
                    self.stage = SdpStage::SignallingPending;
                    SdpStep::SignalPendingCandidates
                },
                _ => self.fail(),
            },
            SdpStage::SignallingPending => match event {
                Event::Succeeded => {
                    self.stage = SdpStage::Finished(true);
                    SdpStep::Finished { answered: true }
                },
                _ => self.fail(),
            },
            SdpStage::Finished(answered) => SdpStep::Finished { answered },
        }
    }
}

} // verus!
