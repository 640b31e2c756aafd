//! Scoring a play: the calls that hand a scenario to the engine and read
//! the result back.
use vstd::prelude::*;

use crate::engine::{
    after, asked, bracketed, lemma_after_prefix, Call, Progress, Reply, Session,
};
use crate::errors::{Error, OppaiError, Result};
use crate::single::Single;
use crate::{lemma_script_shape, Scenario};

verus! {

/// Where an [`Evaluation`] stands.
pub struct EvaluationState {
    /// The calls of the whole session, in their order.
    pub script: Seq<Call>,
    /// How many of them were made and answered.
    pub cursor: nat,
    /// What `ezpp_pp` returned, once it was called.
    pub pp: Single,
    /// What `ezpp_stars` returned, once it was called.
    pub stars: Single,
}

impl EvaluationState {
    /// A session that is to make the calls of `script`, before its first.
    pub open spec fn start(script: Seq<Call>) -> EvaluationState {
        EvaluationState { script, cursor: 0, pp: Single { bits: 0 }, stars: Single { bits: 0 } }
    }

    /// A call is pending, and the last call frees the handle.
    pub open spec fn wf(self) -> bool {
        self.cursor < self.script.len() && self.script.last() == Call::Free
    }

    /// Where a session with this script stands when `replies` answered its
    /// first calls: what `ezpp_pp` and `ezpp_stars` returned is the reply to
    /// the third and to the second call from the end.
    pub open spec fn reached(script: Seq<Call>, replies: Seq<Reply>) -> EvaluationState {
        let n = script.len() as int;
        EvaluationState {
            script,
            cursor: replies.len(),
            pp: if replies.len() > n - 3 {
                replies[n - 3]->Float_0
            } else {
                Single { bits: 0 }
            },
            stars: if replies.len() > n - 2 {
                replies[n - 2]->Float_0
            } else {
                Single { bits: 0 }
            },
        }
    }

    /// The same session, one call further.
    pub open spec fn next(self) -> EvaluationState {
        EvaluationState { cursor: self.cursor + 1, ..self }
    }
}

impl Session for EvaluationState {
    /// The performance points and the stars of the play, or the error for
    /// no memory where the engine had no handle to give.
    type Output = Result<(Single, Single)>;

    open spec fn pending(self) -> Call {
        self.script[self.cursor as int]
    }

    /// The calls come as the script has them, whatever the replies, with one
    /// exception: without a handle the session ends at once. What `ezpp_pp`
    /// and `ezpp_stars` return is kept, and handed out when the handle has
    /// been freed. The status that `ezpp_data` returns is not looked at.
    open spec fn step(self, reply: Reply) -> Progress<Self, Self::Output> {
        match (self.pending(), reply) {
            (Call::New, Reply::Handle(false)) => Progress::Finished(
                Err(Error::OppaiReturns(OppaiError::ErrOOM)),
            ),
            (Call::New, Reply::Handle(true)) => Progress::Pending(self.next()),
            (Call::Free, Reply::Unit) => Progress::Finished(Ok((self.pp, self.stars))),
            (Call::Pp, Reply::Float(pp)) => Progress::Pending(
                EvaluationState { pp, ..self.next() },
            ),
            (Call::Stars, Reply::Float(stars)) => Progress::Pending(
                EvaluationState { stars, ..self.next() },
            ),
            (call, reply) => if call.answered_by(reply) {
                Progress::Pending(self.next())
            } else {
                Progress::Pending(self)
            },
        }
    }
}

/// One run of the engine on a scenario. It is made by
/// [`Oppai::run`](crate::Oppai::run), and ends with the performance points
/// and the stars of the play, in this order.
pub struct Evaluation {
    script: Vec<Call>,
    cursor: usize,
    pp: Single,
    stars: Single,
}

impl View for Evaluation {
    type V = EvaluationState;

    closed spec fn view(&self) -> EvaluationState {
        EvaluationState {
            script: self.script@,
            cursor: self.cursor as nat,
            pp: self.pp,
            stars: self.stars,
        }
    }
}

/// What [`Evaluation::advance`] hands back, as the states that stand for
/// the sessions.
pub open spec fn evaluation_view(
    progress: Progress<Evaluation, Result<(Single, Single)>>,
) -> Progress<EvaluationState, Result<(Single, Single)>> {
    match progress {
        Progress::Pending(session) => Progress::Pending(session@),
        Progress::Finished(result) => Progress::Finished(result),
    }
}

impl Evaluation {
    #[verifier::type_invariant]
    spec fn wf(&self) -> bool {
        self@.wf()
    }

    /// A session that is to make the calls of `script`.
    pub(crate) fn new(script: Vec<Call>) -> (session: Evaluation)
        requires
            script@.len() > 0,
            script@.last() == Call::Free,
        ensures
            session@ == EvaluationState::start(script@),
    {
        Evaluation { script, cursor: 0, pp: Single { bits: 0 }, stars: Single { bits: 0 } }
    }

    /// The call to make now.
    pub fn pending(&self) -> (call: Call)
        ensures
            call == self@.pending(),
            self@.wf(),
    {
        proof {
            use_type_invariant(self);
        }
        self.script[self.cursor]
    }

    /// Takes what the pending call came back with.
    pub fn advance(self, reply: Reply) -> (progress: Progress<Evaluation, Result<(Single, Single)>>)
        ensures
            evaluation_view(progress) == self@.step(reply),
    {
        proof {
            use_type_invariant(&self);
        }
        let call = self.script[self.cursor];
        let Evaluation { script, cursor, pp, stars } = self;
        assert(cursor < script.len());
        match (call, reply) {
            (Call::New, Reply::Handle(false)) => Progress::Finished(
                Err(Error::OppaiReturns(OppaiError::ErrOOM)),
            ),
            (Call::New, Reply::Handle(true)) => Progress::Pending(
                Evaluation { script, cursor: cursor + 1, pp, stars },
            ),
            (Call::Free, Reply::Unit) => Progress::Finished(Ok((pp, stars))),
            (Call::Pp, Reply::Float(pp)) => Progress::Pending(
                Evaluation { script, cursor: cursor + 1, pp, stars },
            ),
            (Call::Stars, Reply::Float(stars)) => Progress::Pending(
                Evaluation { script, cursor: cursor + 1, pp, stars },
            ),
            (call, reply) => if call.accepts(&reply) {
                Progress::Pending(Evaluation { script, cursor: cursor + 1, pp, stars })
            } else {
                Progress::Pending(Evaluation { script, cursor, pp, stars })
            },
        }
    }
}

/// How a run of the engine on a scenario goes, whatever the engine
/// answers. Without a handle it ends after the first call, with the error
/// for no memory. With one it makes every call of the scenario's script and
/// ends after the last, with what `ezpp_pp` and `ezpp_stars` returned.
pub proof fn lemma_evaluation(scenario: Scenario, replies: Seq<Reply>)
    requires
        after(EvaluationState::start(scenario.script()), replies) is Some,
    ensures
        ({
            let script = scenario.script();
            let n = script.len() as int;
            let k = replies.len() as int;
            &&& k <= n
            &&& forall|i: int| 0 <= i < k ==> (#[trigger] script[i]).answered_by(replies[i])
            &&& match after(EvaluationState::start(script), replies)->Some_0 {
                Progress::Pending(session) => {
                    &&& k < n
                    &&& session == EvaluationState::reached(script, replies)
                    &&& k > 0 ==> replies[0] == Reply::Handle(true)
                },
                Progress::Finished(Err(e)) => {
                    &&& k == 1
                    &&& replies[0] == Reply::Handle(false)
                    &&& e == Error::OppaiReturns(OppaiError::ErrOOM)
                },
                Progress::Finished(Ok((pp, stars))) => {
                    &&& k == n
                    &&& replies[0] == Reply::Handle(true)
                    &&& replies[n - 3] == Reply::Float(pp)
                    &&& replies[n - 2] == Reply::Float(stars)
                },
            }
        }),
    decreases replies.len(),
{
    let script = scenario.script();
    let n = script.len() as int;
    let k = replies.len() as int;
    let start = EvaluationState::start(script);
    lemma_script_shape(scenario);
    if k > 0 {
        let before = replies.drop_last();
        let reply = replies.last();
        lemma_evaluation(scenario, before);
        let session = after(start, before)->Some_0->Pending_0;
        let call = script[k - 1];
        assert(session == EvaluationState::reached(script, before));
        assert(session.pending() == call);
        assert(call.answered_by(reply));
        assert(after(start, replies) == Some(session.step(reply)));
        assert forall|i: int| 0 <= i < k implies (#[trigger] script[i]).answered_by(
            replies[i],
        ) by {
            if i < k - 1 {
                assert(replies[i] == before[i]);
            }
        }
        if k - 1 == 0 {
        } else {
            assert(replies[0] == before[0]);
            if k - 1 < n - 4 {
                assert(call.is_setter());
                assert(session.step(reply) == Progress::<
                    EvaluationState,
                    Result<(Single, Single)>,
                >::Pending(session.next()));
            } else if k - 1 == n - 4 {
                assert(session.step(reply) == Progress::<
                    EvaluationState,
                    Result<(Single, Single)>,
                >::Pending(session.next()));
            } else if k - 1 == n - 3 {
            } else if k - 1 == n - 2 {
                assert(replies[n - 3] == before[n - 3]);
            } else {
                assert(script[n - 3].answered_by(before[n - 3]));
                assert(script[n - 2].answered_by(before[n - 2]));
                assert(replies[n - 3] == before[n - 3]);
                assert(replies[n - 2] == before[n - 2]);
            }
        }
    }
}

/// The calls of a run are those of the scenario's script, in its order:
/// they do not depend on what the engine answers. So two runs on one
/// scenario make the same calls.
pub proof fn lemma_evaluation_calls(scenario: Scenario, replies: Seq<Reply>)
    requires
        after(EvaluationState::start(scenario.script()), replies) is Some,
    ensures
        replies.len() <= scenario.script().len(),
        asked(EvaluationState::start(scenario.script()), replies) == scenario.script().take(
            replies.len() as int,
        ),
{
    let script = scenario.script();
    let start = EvaluationState::start(script);
    lemma_evaluation(scenario, replies);
    assert forall|i: int| 0 <= i < replies.len() implies asked(start, replies)[i]
        == script[i] by {
        lemma_after_prefix(start, replies, i);
        lemma_evaluation(scenario, replies.take(i));
    }
    assert(asked(start, replies) =~= script.take(replies.len() as int));
}

/// A run that has ended asked for one handle, first, and freed it last, if
/// there was one to be had.
pub proof fn lemma_evaluation_bracketed(scenario: Scenario, replies: Seq<Reply>)
    requires
        after(EvaluationState::start(scenario.script()), replies) matches Some(
            Progress::Finished(_),
        ),
    ensures
        bracketed(
            asked(EvaluationState::start(scenario.script()), replies),
            replies[0] == Reply::Handle(true),
        ),
{
    let script = scenario.script();
    lemma_script_shape(scenario);
    lemma_evaluation(scenario, replies);
    lemma_evaluation_calls(scenario, replies);
    assert forall|i: int| 0 < i < script.len() - 1 implies script[i] != Call::New && script[i]
        != Call::Free by {
        if i < script.len() - 4 {
            assert(script[i].is_setter());
        }
    }
}

} // verus!
