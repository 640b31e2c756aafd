//! Learning what a map is: the calls that load it into the engine once and
//! read its mode and its longest combo.
use vstd::prelude::*;

use crate::engine::{
    after, asked, bracketed, lemma_after_prefix, Call, Progress, Reply, Session,
};
use crate::errors::{Error, OppaiError, Result};
use crate::modes::Mode;
use crate::{Oppai, Scenario};

verus! {

/// How far a [`Discovery`] has come.
#[derive(Debug)]
pub enum Stage {
    /// Nothing was called yet: a handle is to be asked for.
    Acquire,
    /// There is a handle: the content is to be loaded.
    Load,
    /// The content is loaded: the map's mode is to be read.
    ReadMode,
    /// The map has this mode: its longest combo is to be read.
    ReadMaxCombo(Mode),
    /// All is known, or something failed: the handle is to be freed, and
    /// then this is the outcome.
    Release(Result<(Mode, u32)>),
}

/// Where a [`Discovery`] stands.
pub struct DiscoveryState {
    /// The content of the map.
    pub content: Seq<u8>,
    /// How far the session has come.
    pub stage: Stage,
}

impl DiscoveryState {
    /// A session on a map with this content, before its first call.
    pub open spec fn start(content: Seq<u8>) -> DiscoveryState {
        DiscoveryState { content, stage: Stage::Acquire }
    }

    /// Whether a session on `content` that took `replies` and has a call
    /// pending stands where the replies put it.
    spec fn on_track(self, content: Seq<u8>, replies: Seq<Reply>) -> bool {
        let k = replies.len();
        let status = replies[1]->Int_0;
        let code = replies[2]->Int_0;
        &&& self.content == content
        &&& k >= 1 ==> replies[0] == Reply::Handle(true)
        &&& k >= 2 ==> replies[1] is Int
        &&& k >= 3 ==> replies[1] == Reply::Int(0) && replies[2] is Int
        &&& k >= 4 ==> Mode::of_code(code) is Some && replies[3] is Int
        &&& match self.stage {
            Stage::Acquire => k == 0,
            Stage::Load => k == 1,
            Stage::ReadMode => k == 2 && status == 0,
            Stage::ReadMaxCombo(mode) => k == 3 && Mode::of_code(code) == Some(mode),
            Stage::Release(Err(e)) => {
                ||| k == 2 && OppaiError::spec_resolve(status) == Err::<(), Error>(e)
                ||| k == 3 && Mode::of_code(code) is None && e == Error::OppaiUnknownMode(code)
            },
            Stage::Release(Ok((mode, max_combo))) => {
                &&& k == 4
                &&& Mode::of_code(code) == Some(mode)
                &&& max_combo == replies[3]->Int_0 as u32
            },
        }
    }

    /// All the ways in which a session on `content` ends: the replies that
    /// it took, the calls that they answered, and its result.
    ///
    /// Without a handle it ends at once. Where loading fails, or the mode
    /// is none of ours, it frees the handle and ends with that error.
    /// Else it asks for the longest combo too, frees the handle, and ends
    /// with the map.
    pub open spec fn ends(
        content: Seq<u8>,
        replies: Seq<Reply>,
        calls: Seq<Call>,
        result: Result<Scenario>,
    ) -> bool {
        let status = replies[1]->Int_0;
        let code = replies[2]->Int_0;
        let max_combo = replies[3]->Int_0;
        if replies[0] == Reply::Handle(false) {
            &&& replies == seq![Reply::Handle(false)]
            &&& calls == seq![Call::New]
            &&& result == Err::<Scenario, Error>(Error::OppaiReturns(OppaiError::ErrOOM))
        } else if OppaiError::spec_resolve(status) is Err {
            &&& replies == seq![Reply::Handle(true), Reply::Int(status), Reply::Unit]
            &&& calls == seq![Call::New, Call::Data, Call::Free]
            &&& result == Err::<Scenario, Error>(OppaiError::spec_resolve(status)->Err_0)
        } else if Mode::of_code(code) is Some {
            &&& replies == seq![
                Reply::Handle(true),
                Reply::Int(0),
                Reply::Int(code),
                Reply::Int(max_combo),
                Reply::Unit,
            ]
            &&& calls == seq![Call::New, Call::Data, Call::Mode, Call::MaxCombo, Call::Free]
            &&& result == Ok::<Scenario, Error>(
                Scenario::new(content, Mode::of_code(code)->Some_0, max_combo as u32),
            )
        } else {
            &&& replies == seq![Reply::Handle(true), Reply::Int(0), Reply::Int(code), Reply::Unit]
            &&& calls == seq![Call::New, Call::Data, Call::Mode, Call::Free]
            &&& result == Err::<Scenario, Error>(Error::OppaiUnknownMode(code))
        }
    }

    /// The same session at another stage.
    pub open spec fn at(self, stage: Stage) -> DiscoveryState {
        DiscoveryState { stage, ..self }
    }
}

impl Session for DiscoveryState {
    /// The map with nothing set for the play, or why there is none.
    type Output = Result<Scenario>;

    open spec fn pending(self) -> Call {
        match self.stage {
            Stage::Acquire => Call::New,
            Stage::Load => Call::Data,
            Stage::ReadMode => Call::Mode,
            Stage::ReadMaxCombo(_) => Call::MaxCombo,
            Stage::Release(_) => Call::Free,
        }
    }

    /// Without a handle the session ends at once, with the error for no
    /// memory. With one, each failure goes on to free it first: a status
    /// other than 0 from loading, with the error that the status resolves
    /// to, and a mode that is none of ours, with its code in the error.
    /// The longest combo is taken as the engine's 32 bits, unsigned.
    open spec fn step(self, reply: Reply) -> Progress<Self, Self::Output> {
        match (self.stage, reply) {
            (Stage::Acquire, Reply::Handle(false)) => Progress::Finished(
                Err(Error::OppaiReturns(OppaiError::ErrOOM)),
            ),
            (Stage::Acquire, Reply::Handle(true)) => Progress::Pending(self.at(Stage::Load)),
            (Stage::Load, Reply::Int(status)) => Progress::Pending(
                self.at(
                    match OppaiError::spec_resolve(status) {
                        Ok(_) => Stage::ReadMode,
                        Err(e) => Stage::Release(Err(e)),
                    },
                ),
            ),
            (Stage::ReadMode, Reply::Int(code)) => Progress::Pending(
                self.at(
                    match Mode::of_code(code) {
                        Some(mode) => Stage::ReadMaxCombo(mode),
                        None => Stage::Release(Err(Error::OppaiUnknownMode(code))),
                    },
                ),
            ),
            (Stage::ReadMaxCombo(mode), Reply::Int(max_combo)) => Progress::Pending(
                self.at(Stage::Release(Ok((mode, max_combo as u32)))),
            ),
            (Stage::Release(outcome), Reply::Unit) => Progress::Finished(
                match outcome {
                    Ok((mode, max_combo)) => Ok(Scenario::new(self.content, mode, max_combo)),
                    Err(e) => Err(e),
                },
            ),
            _ => Progress::Pending(self),
        }
    }
}

/// The one run of the engine that an [`Oppai`] starts with. It is made by
/// [`Oppai::new_from_content`], and ends with the `Oppai`.
pub struct Discovery {
    content: Vec<u8>,
    stage: Stage,
}

impl View for Discovery {
    type V = DiscoveryState;

    closed spec fn view(&self) -> DiscoveryState {
        DiscoveryState { content: self.content@, stage: self.stage }
    }
}

/// What [`Discovery::advance`] hands back, as the states that stand for
/// the session and for the `Oppai`.
pub open spec fn discovery_view(progress: Progress<Discovery, Result<Oppai>>) -> Progress<
    DiscoveryState,
    Result<Scenario>,
> {
    match progress {
        Progress::Pending(session) => Progress::Pending(session@),
        Progress::Finished(Ok(oppai)) => Progress::Finished(Ok(oppai@)),
        Progress::Finished(Err(e)) => Progress::Finished(Err(e)),
    }
}

impl Discovery {
    #[verifier::type_invariant]
    spec fn loadable(&self) -> bool {
        !self.content@.contains(0u8)
    }

    /// A session on a map with this content.
    pub(crate) fn new(content: Vec<u8>) -> (session: Discovery)
        requires
            !content@.contains(0u8),
        ensures
            session@ == DiscoveryState::start(content@),
    {
        Discovery { content, stage: Stage::Acquire }
    }

    /// The content of the map, for the engine to load.
    pub fn content(&self) -> (content: &Vec<u8>)
        ensures
            content@ == self@.content,
            !content@.contains(0u8),
    {
        proof {
            use_type_invariant(self);
        }
        &self.content
    }

    /// The call to make now.
    pub fn pending(&self) -> (call: Call)
        ensures
            call == self@.pending(),
    {
        match self.stage {
            Stage::Acquire => Call::New,
            Stage::Load => Call::Data,
            Stage::ReadMode => Call::Mode,
            Stage::ReadMaxCombo(_) => Call::MaxCombo,
            Stage::Release(_) => Call::Free,
        }
    }

    /// Takes what the pending call came back with.
    pub fn advance(self, reply: Reply) -> (progress: Progress<Discovery, Result<Oppai>>)
        ensures
            discovery_view(progress) == self@.step(reply),
            progress matches Progress::Finished(Ok(oppai)) ==> oppai@.valid(),
    {
        proof {
            use_type_invariant(&self);
        }
        let Discovery { content, stage } = self;
        match (stage, reply) {
            (Stage::Acquire, Reply::Handle(false)) => Progress::Finished(
                Err(Error::OppaiReturns(OppaiError::ErrOOM)),
            ),
            (Stage::Acquire, Reply::Handle(true)) => Progress::Pending(
                Discovery { content, stage: Stage::Load },
            ),
            (Stage::Load, Reply::Int(status)) => {
                let stage = match OppaiError::resolve(status) {
                    Ok(_) => Stage::ReadMode,
                    Err(e) => Stage::Release(Err(e)),
                };
                Progress::Pending(Discovery { content, stage })
            },
            (Stage::ReadMode, Reply::Int(code)) => {
                let stage = match Mode::try_from(code) {
                    Ok(mode) => Stage::ReadMaxCombo(mode),
                    Err(e) => Stage::Release(Err(e)),
                };
                Progress::Pending(Discovery { content, stage })
            },
            (Stage::ReadMaxCombo(mode), Reply::Int(max_combo)) => {
                let max_combo =
                #[verifier::truncate]
                (max_combo as u32);
                let stage = Stage::Release(Ok((mode, max_combo)));
                Progress::Pending(Discovery { content, stage })
            },
            (Stage::Release(outcome), Reply::Unit) => Progress::Finished(
                match outcome {
                    Ok((mode, max_combo)) => Ok(Oppai::loaded(content, mode, max_combo)),
                    Err(e) => Err(e),
                },
            ),
            (stage, _) => Progress::Pending(Discovery { content, stage }),
        }
    }
}

/// A session with a call pending stands where the replies put it.
proof fn lemma_on_track(content: Seq<u8>, replies: Seq<Reply>)
    requires
        after(DiscoveryState::start(content), replies) matches Some(Progress::Pending(_)),
    ensures
        after(DiscoveryState::start(content), replies)->Some_0->Pending_0.on_track(
            content,
            replies,
        ),
    decreases replies.len(),
{
    let start = DiscoveryState::start(content);
    if replies.len() > 0 {
        let before = replies.drop_last();
        lemma_on_track(content, before);
        let session = after(start, before)->Some_0->Pending_0;
        assert(after(start, replies) == Some(session.step(replies.last())));
        assert forall|i: int| 0 <= i < before.len() implies replies[i] == before[i] by {}
    }
}

/// A discovery does end: a session that still has a call pending took at
/// most four replies, so the fifth reply, at the latest, ends it.
pub proof fn lemma_discovery_ends(content: Seq<u8>, replies: Seq<Reply>)
    requires
        after(DiscoveryState::start(content), replies) matches Some(Progress::Pending(_)),
    ensures
        replies.len() <= 4,
{
    lemma_on_track(content, replies);
}

/// How the discovery of a map goes, whatever the engine answers: a session
/// that has ended went one of the ways of [`DiscoveryState::ends`].
pub proof fn lemma_discovery(content: Seq<u8>, replies: Seq<Reply>)
    requires
        after(DiscoveryState::start(content), replies) matches Some(Progress::Finished(_)),
    ensures
        DiscoveryState::ends(
            content,
            replies,
            asked(DiscoveryState::start(content), replies),
            after(DiscoveryState::start(content), replies)->Some_0->Finished_0,
        ),
{
    let start = DiscoveryState::start(content);
    let k = replies.len() as int;
    let before = replies.drop_last();
    let calls = asked(start, replies);
    lemma_on_track(content, before);
    let last = after(start, before)->Some_0->Pending_0;
    assert(after(start, replies) == Some(last.step(replies.last())));
    assert forall|i: int| 0 <= i < before.len() implies replies[i] == before[i] by {}
    assert forall|i: int| 0 <= i < k implies (#[trigger] calls[i]) == (if i == 0 {
        Call::New
    } else if i == k - 1 {
        Call::Free
    } else if i == 1 {
        Call::Data
    } else if i == 2 {
        Call::Mode
    } else {
        Call::MaxCombo
    }) by {
        lemma_after_prefix(start, replies, i);
        lemma_on_track(content, replies.take(i));
        if i == k - 1 {
            assert(replies.take(i) == before);
        }
    }
    if replies[0] == Reply::Handle(false) {
        assert(replies =~= seq![Reply::Handle(false)]);
        assert(calls =~= seq![Call::New]);
    } else if k == 3 {
        assert(replies =~= seq![
            Reply::Handle(true),
            Reply::Int(replies[1]->Int_0),
            Reply::Unit,
        ]);
        assert(calls =~= seq![Call::New, Call::Data, Call::Free]);
    } else if k == 4 {
        assert(replies =~= seq![
            Reply::Handle(true),
            Reply::Int(0),
            Reply::Int(replies[2]->Int_0),
            Reply::Unit,
        ]);
        assert(calls =~= seq![Call::New, Call::Data, Call::Mode, Call::Free]);
    } else {
        assert(replies =~= seq![
            Reply::Handle(true),
            Reply::Int(0),
            Reply::Int(replies[2]->Int_0),
            Reply::Int(replies[3]->Int_0),
            Reply::Unit,
        ]);
        assert(calls =~= seq![
            Call::New,
            Call::Data,
            Call::Mode,
            Call::MaxCombo,
            Call::Free,
        ]);
    }
}

/// A discovery that has ended asked for one handle, first, and freed it
/// last, if there was one to be had: on every way out, also where loading
/// failed or the mode was none of ours.
pub proof fn lemma_discovery_bracketed(content: Seq<u8>, replies: Seq<Reply>)
    requires
        after(DiscoveryState::start(content), replies) matches Some(Progress::Finished(_)),
    ensures
        bracketed(
            asked(DiscoveryState::start(content), replies),
            replies[0] == Reply::Handle(true),
        ),
{
    lemma_discovery(content, replies);
}

} // verus!
