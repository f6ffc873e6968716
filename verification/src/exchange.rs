//! How a peer handles a handshake message from the other side: a remote
//! session description is set, answered when no local description exists yet,
//! and followed by the candidates that waited for it; a remote ICE candidate
//! is added. Each step is performed by the driver, which reports back how it
//! went.

use vstd::prelude::*;
use crate::signal::message::Sdp;

verus! {

/// A handshake message from the other peer.
#[derive(Clone, Debug)]
pub enum Incoming {
    Description(Sdp),
    Candidate(String),
}

/// How the handling of a message ended.
#[derive(Clone, Copy, Debug, PartialEq, Eq, Structural)]
pub enum Outcome {
    /// The message was handled; the peer waits for the next one.
    Continue,
    /// A step failed; the peer stops handling messages.
    Stop,
    /// A step failed that this peer treats as fatal.
    Abort,
}

/// What the driver does next.
#[derive(Clone, Debug)]
pub enum Step {
    SetRemoteDescription(Sdp),
    CheckLocalDescription,
    CreateAnswer,
    /// Send the answer to the other peer.
    SendAnswer(Sdp),
    SetLocalDescription(Sdp),
    /// Send the candidates that waited for the remote description.
    SendPendingCandidates,
    AddIceCandidate(String),
    Done(Outcome),
}

/// How the last step went.
#[derive(Clone, Debug)]
pub enum Event {
    Succeeded,
    Failed,
    /// The local description was looked up: whether one is set.
    HasLocalDescription(bool),
    AnswerCreated(Sdp),
}

/// Where the handling of a message stands.
#[derive(Clone, Debug)]
pub enum Stage {
    SettingRemote,
    CheckingLocal,
    CreatingAnswer,
    SendingAnswer(Sdp),
    SettingLocal,
    SendingPending,
    AddingCandidate,
    Done(Outcome),
}

/// The end of a failed step: a failure before the remote description was
/// accepted stops; later ones abort when `abort_after_remote` holds.
pub open spec fn failed(abort_after_remote: bool) -> (Stage, Step) {
    if abort_after_remote {
        (Stage::Done(Outcome::Abort), Step::Done(Outcome::Abort))
    } else {
        (Stage::Done(Outcome::Stop), Step::Done(Outcome::Stop))
    }
}

/// The transition table.
pub open spec fn next(stage: Stage, abort_after_remote: bool, event: Event) -> (Stage, Step) {
    match stage {
        Stage::SettingRemote => match event {
            Event::Succeeded => (Stage::CheckingLocal, Step::CheckLocalDescription),
            _ => (Stage::Done(Outcome::Stop), Step::Done(Outcome::Stop)),
        },
        Stage::CheckingLocal => match event {
            Event::HasLocalDescription(true) => (Stage::SendingPending, Step::SendPendingCandidates),
            Event::HasLocalDescription(false) => (Stage::CreatingAnswer, Step::CreateAnswer),
            _ => failed(abort_after_remote),
        },
        Stage::CreatingAnswer => match event {
            Event::AnswerCreated(answer) => (Stage::SendingAnswer(answer), Step::SendAnswer(answer)),
            _ => failed(abort_after_remote),
        },
        Stage::SendingAnswer(answer) => match event {
            Event::Succeeded => (Stage::SettingLocal, Step::SetLocalDescription(answer)),
            _ => failed(abort_after_remote),
        },
        Stage::SettingLocal => match event {
            Event::Succeeded => (Stage::SendingPending, Step::SendPendingCandidates),
            _ => failed(abort_after_remote),
        },
        Stage::SendingPending => match event {
            Event::Succeeded => (Stage::Done(Outcome::Continue), Step::Done(Outcome::Continue)),
            _ => failed(abort_after_remote),
        },
        Stage::AddingCandidate => match event {
            Event::Succeeded => (Stage::Done(Outcome::Continue), Step::Done(Outcome::Continue)),
            _ => failed(abort_after_remote),
        },
        Stage::Done(outcome) => (Stage::Done(outcome), Step::Done(outcome)),
    }
}

impl Stage {
    /// A copy of this stage.
    pub fn duplicate(&self) -> (r: Self)
        ensures
            r == *self,
    {
        match self {
            Stage::SettingRemote => Stage::SettingRemote,
            Stage::CheckingLocal => Stage::CheckingLocal,
            Stage::CreatingAnswer => Stage::CreatingAnswer,
            Stage::SendingAnswer(answer) => Stage::SendingAnswer(answer.duplicate()),
            Stage::SettingLocal => Stage::SettingLocal,
            Stage::SendingPending => Stage::SendingPending,
            Stage::AddingCandidate => Stage::AddingCandidate,
            Stage::Done(outcome) => Stage::Done(*outcome),
        }
    }
}

/// How many steps at most remain from a stage.
pub open spec fn remaining(stage: Stage) -> nat {
    match stage {
        Stage::SettingRemote => 6,
        Stage::CheckingLocal => 5,
        Stage::CreatingAnswer => 4,
        Stage::SendingAnswer(_) => 3,
        Stage::SettingLocal => 2,
        Stage::SendingPending => 1,
        Stage::AddingCandidate => 1,
        Stage::Done(_) => 0,
    }
}

/// The steps given for a sequence of reports, starting at `stage`.
pub open spec fn run(stage: Stage, abort_after_remote: bool, events: Seq<Event>) -> Seq<Step>
    decreases events.len(),
{
    if events.len() == 0 {
        Seq::empty()
    } else {
        let (after, step) = next(stage, abort_after_remote, events[0]);
        seq![step] + run(after, abort_after_remote, events.drop_first())
    }
}

/// Every step brings the handling closer to its end: a message is handled
/// in at most six steps after the first.
pub proof fn lemma_handling_ends(stage: Stage, abort_after_remote: bool, event: Event)
    requires
        !(stage is Done),
    ensures
        remaining(next(stage, abort_after_remote, event).0) < remaining(stage),
        next(stage, abort_after_remote, event).0 is Done <==> next(stage, abort_after_remote, event).1 is Done,
{
}

/// A failed step ends the handling of the message, never with success: it
/// stops when the peer does not abort on failures or when setting the
/// remote description failed, and aborts otherwise.
pub proof fn lemma_failure_ends_handling(stage: Stage, abort_after_remote: bool)
    requires
        !(stage is Done),
    ensures
        ({
            let (after, step) = next(stage, abort_after_remote, Event::Failed);
            let outcome = if abort_after_remote && stage != Stage::SettingRemote {
                Outcome::Abort
            } else {
                Outcome::Stop
            };
            &&& after == Stage::Done(outcome)
            &&& step == Step::Done(outcome)
        }),
{
}

/// A message is handled with success only right after the waiting
/// candidates were sent (for a description) or the candidate was added.
pub proof fn lemma_success_after_last_step(stage: Stage, abort_after_remote: bool, event: Event)
    requires
        !(stage is Done),
        next(stage, abort_after_remote, event).1 == Step::Done(Outcome::Continue),
    ensures
        stage == Stage::SendingPending || stage == Stage::AddingCandidate,
        event == Event::Succeeded,
{
}

/// An answer is created only when no local description is set, and the
/// answer that is sent is the one created and then the one set as the local
/// description.
pub proof fn lemma_answer_only_without_local(stage: Stage, abort_after_remote: bool, event: Event, answer: Sdp)
    ensures
        next(stage, abort_after_remote, event).1 == Step::CreateAnswer ==> stage == Stage::CheckingLocal
            && event == Event::HasLocalDescription(false),
        next(stage, abort_after_remote, event).1 == Step::SendAnswer(answer) ==> stage == Stage::CreatingAnswer
            && event == Event::AnswerCreated(answer)
            && next(stage, abort_after_remote, event).0 == Stage::SendingAnswer(answer),
        stage == Stage::SendingAnswer(answer) && event == Event::Succeeded ==> next(stage, abort_after_remote, event)
            == (Stage::SettingLocal, Step::SetLocalDescription(answer)),
{
}

/// When every step succeeds and no local description is set, a remote
/// description is answered: the answer is created, sent, set as the local
/// description, and the waiting candidates follow.
pub proof fn lemma_description_answered(abort_after_remote: bool, answer: Sdp)
    ensures
        run(
            Stage::SettingRemote,
            abort_after_remote,
            seq![
                Event::Succeeded,
                Event::HasLocalDescription(false),
                Event::AnswerCreated(answer),
                Event::Succeeded,
                Event::Succeeded,
                Event::Succeeded,
            ],
        ) == seq![
            Step::CheckLocalDescription,
            Step::CreateAnswer,
            Step::SendAnswer(answer),
            Step::SetLocalDescription(answer),
            Step::SendPendingCandidates,
            Step::Done(Outcome::Continue),
        ],
{
    reveal_with_fuel(run, 7);
    let events = seq![
        Event::Succeeded,
        Event::HasLocalDescription(false),
        Event::AnswerCreated(answer),
        Event::Succeeded,
        Event::Succeeded,
        Event::Succeeded,
    ];
    assert(events.drop_first() =~= events.subrange(1, 6));
    assert(events.subrange(1, 6).drop_first() =~= events.subrange(2, 6));
    assert(events.subrange(2, 6).drop_first() =~= events.subrange(3, 6));
    assert(events.subrange(3, 6).drop_first() =~= events.subrange(4, 6));
    assert(events.subrange(4, 6).drop_first() =~= events.subrange(5, 6));
    assert(events.subrange(5, 6).drop_first() =~= Seq::<Event>::empty());
    assert(run(Stage::SettingRemote, abort_after_remote, events) =~= seq![
        Step::CheckLocalDescription,
        Step::CreateAnswer,
        Step::SendAnswer(answer),
        Step::SetLocalDescription(answer),
        Step::SendPendingCandidates,
        Step::Done(Outcome::Continue),
    ]);
}

/// When a local description is already set (this peer made the offer), a
/// remote description is not answered: the waiting candidates are sent.
pub proof fn lemma_offer_answered_no_answer(abort_after_remote: bool)
    ensures
        run(
            Stage::SettingRemote,
            abort_after_remote,
            seq![Event::Succeeded, Event::HasLocalDescription(true), Event::Succeeded],
        ) == seq![
            Step::CheckLocalDescription,
            Step::SendPendingCandidates,
            Step::Done(Outcome::Continue),
        ],
{
    reveal_with_fuel(run, 4);
    let events = seq![Event::Succeeded, Event::HasLocalDescription(true), Event::Succeeded];
    assert(events.drop_first() =~= events.subrange(1, 3));
    assert(events.subrange(1, 3).drop_first() =~= events.subrange(2, 3));
    assert(events.subrange(2, 3).drop_first() =~= Seq::<Event>::empty());
    assert(run(Stage::SettingRemote, abort_after_remote, events) =~= seq![
        Step::CheckLocalDescription,
        Step::SendPendingCandidates,
        Step::Done(Outcome::Continue),
    ]);
}

/// Whether a report tells that the step a stage asked for succeeded: the
/// local description was looked up, an answer was created, or the step went
/// through.
pub open spec fn reports_success(stage: Stage, event: Event) -> bool {
    match stage {
        Stage::CheckingLocal => event is HasLocalDescription,
        Stage::CreatingAnswer => event is AnswerCreated,
        _ => event is Succeeded,
    }
}

/// A remote candidate that was added ends the handling of its message with
/// success, so the peer goes on to the next message, whether or not it
/// aborts on failures.
pub proof fn lemma_added_candidate_continues(abort_after_remote: bool)
    ensures
        next(Stage::AddingCandidate, abort_after_remote, Event::Succeeded) == (
            Stage::Done(Outcome::Continue),
            Step::Done(Outcome::Continue),
        ),
{
}

/// Only a failed step ends the handling with a stop or an abort: a step that
/// succeeded either leads to the next step or ends the handling with success.
pub proof fn lemma_success_never_stops(stage: Stage, abort_after_remote: bool, event: Event)
    requires
        !(stage is Done),
        reports_success(stage, event),
    ensures
        next(stage, abort_after_remote, event).1 != Step::Done(Outcome::Stop),
        next(stage, abort_after_remote, event).1 != Step::Done(Outcome::Abort),
        next(stage, abort_after_remote, event).0 is Done ==> next(stage, abort_after_remote, event).0
            == Stage::Done(Outcome::Continue),
{
}

/// The handling of one handshake message.
pub struct Exchange {
    stage: Stage,
    abort_after_remote: bool,
}

impl Exchange {
    pub closed spec fn stage(self) -> Stage {
        self.stage
    }

    /// Whether failures after the remote description was accepted abort.
    pub closed spec fn aborts_after_remote(self) -> bool {
        self.abort_after_remote
    }

    /// Starts handling `msg`: a description is first set as the remote one, a
    /// candidate is added.
    pub fn start(msg: Incoming, abort_after_remote: bool) -> (r: (Self, Step))
        ensures
            r.0.aborts_after_remote() == abort_after_remote,
            match msg {
                Incoming::Description(d) => r.0.stage() == Stage::SettingRemote
                    && r.1 == Step::SetRemoteDescription(d),
                Incoming::Candidate(c) => r.0.stage() == Stage::AddingCandidate
                    && r.1 == Step::AddIceCandidate(c),
            },
    {
        match msg {
            Incoming::Description(d) => (
                Exchange { stage: Stage::SettingRemote, abort_after_remote },
                Step::SetRemoteDescription(d),
            ),
            Incoming::Candidate(c) => (
                Exchange { stage: Stage::AddingCandidate, abort_after_remote },
                Step::AddIceCandidate(c),
            ),
        }
    }

    fn fail(&mut self) -> (s: Step)
        ensures
            (final(self).stage(), s) == failed(old(self).aborts_after_remote()),
            final(self).aborts_after_remote() == old(self).aborts_after_remote(),
    {
        if self.abort_after_remote {
            self.stage = Stage::Done(Outcome::Abort);
            Step::Done(Outcome::Abort)
        } else {
            self.stage = Stage::Done(Outcome::Stop);
            Step::Done(Outcome::Stop)
        }
    }

    /// Takes the report of the last step and gives the next step.
    pub fn step(&mut self, event: Event) -> (s: Step)
        ensures
            (final(self).stage(), s) == next(old(self).stage(), old(self).aborts_after_remote(), event),
            final(self).aborts_after_remote() == old(self).aborts_after_remote(),
    {
        match self.stage.duplicate() {
            Stage::SettingRemote => match event {
                Event::Succeeded => {
                    self.stage = Stage::CheckingLocal;
                    Step::CheckLocalDescription
                },
                _ => {
                    self.stage = Stage::Done(Outcome::Stop);
                    Step::Done(Outcome::Stop)
                },
            },
            Stage::CheckingLocal => match event {
                Event::HasLocalDescription(true) => {
                    self.stage = Stage::SendingPending;
                    Step::SendPendingCandidates
                },
                Event::HasLocalDescription(false) => {
                    self.stage = Stage::CreatingAnswer;
                    Step::CreateAnswer
                },
                _ => self.fail(),
            },
            Stage::CreatingAnswer => match event {
                Event::AnswerCreated(answer) => {
                    self.stage = Stage::SendingAnswer(answer.duplicate());
                    Step::SendAnswer(answer)
                },
                _ => self.fail(),
            },
            Stage::SendingAnswer(answer) => match event {
                Event::Succeeded => {
                    self.stage = Stage::SettingLocal;
                    Step::SetLocalDescription(answer)
                },
                _ => self.fail(),
            },
            Stage::SettingLocal => match event {
                Event::Succeeded => {
                    self.stage = Stage::SendingPending;
                    Step::SendPendingCandidates
                },
                _ => self.fail(),
            },
            Stage::SendingPending => match event {
                Event::Succeeded => {
                    self.stage = Stage::Done(Outcome::Continue);
                    Step::Done(Outcome::Continue)
                },
                _ => self.fail(),
            },
            Stage::AddingCandidate => match event {
                Event::Succeeded => {
                    self.stage = Stage::Done(Outcome::Continue);
                    Step::Done(Outcome::Continue)
                },
                _ => self.fail(),
            },
            Stage::Done(outcome) => Step::Done(outcome),
        }
    }
}

} // verus!
