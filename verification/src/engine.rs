//! The calls that the engine offers, as values.
//!
//! The library never touches the engine. A session says which call comes
//! next; whoever holds the engine makes it and hands the answer back.
use libc::c_int;
use vstd::prelude::*;

use crate::single::Single;

verus! {

/// One call on the engine. All but [`Call::New`] are made on the handle that
/// the session's `New` gave.
#[derive(Clone, Copy, PartialEq, Eq, Structural, Debug)]
pub enum Call {
    /// `ezpp_new`: creates a handle.
    New,
    /// `ezpp_free`: frees the handle.
    Free,
    /// `ezpp_data`: loads the map's content, all of its bytes, and computes.
    Data,
    /// `ezpp_set_mods`
    SetMods(c_int),
    /// `ezpp_mode`
    Mode,
    /// `ezpp_set_mode_override`
    SetModeOverride(c_int),
    /// `ezpp_set_mode`
    SetMode(c_int),
    /// `ezpp_max_combo`
    MaxCombo,
    /// `ezpp_set_combo`
    SetCombo(c_int),
    /// `ezpp_set_nmiss`
    SetNmiss(c_int),
    /// `ezpp_set_accuracy_percent`
    SetAccuracyPercent(Single),
    /// `ezpp_pp`
    Pp,
    /// `ezpp_stars`
    Stars,
}

/// What a call came back with.
#[derive(Clone, Copy, PartialEq, Eq, Structural, Debug)]
pub enum Reply {
    /// Nothing: the call returns no value.
    Unit,
    /// Whether `ezpp_new` gave a handle, and not a null pointer.
    Handle(bool),
    /// The integer that the call returned.
    Int(c_int),
    /// The number that the call returned.
    Float(Single),
}

/// A session after one more reply: still with a call to make, or at its
/// end, with what it was run for.
pub enum Progress<S, T> {
    Pending(S),
    Finished(T),
}

impl Call {
    /// Whether `reply` is of the kind that this call comes back with.
    pub open spec fn answered_by(self, reply: Reply) -> bool {
        match self {
            Call::New => reply is Handle,
            Call::Data | Call::Mode | Call::MaxCombo => reply is Int,
            Call::Pp | Call::Stars => reply is Float,
            _ => reply is Unit,
        }
    }

    /// Whether this call hands a value to the engine and gets none back.
    pub open spec fn is_setter(self) -> bool {
        self is SetMods || self is SetModeOverride || self is SetMode || self is SetCombo
            || self is SetNmiss || self is SetAccuracyPercent
    }

    /// Whether `reply` is of the kind that this call comes back with.
    pub fn accepts(&self, reply: &Reply) -> (b: bool)
        ensures
            b == self.answered_by(*reply),
    {
        match self {
            Call::New => matches!(reply, Reply::Handle(_)),
            Call::Data | Call::Mode | Call::MaxCombo => matches!(reply, Reply::Int(_)),
            Call::Pp | Call::Stars => matches!(reply, Reply::Float(_)),
            _ => matches!(reply, Reply::Unit),
        }
    }
}

/// A session with the engine, as a machine: from where it stands it asks
/// for one call, and the reply to that call moves it on or ends it.
pub trait Session: Sized {
    /// What the session is run for.
    type Output;

    /// The call that comes next.
    spec fn pending(self) -> Call;

    /// Where the session goes when `reply` is handed to it. A reply of
    /// another kind than the pending call comes back with moves nothing.
    spec fn step(self, reply: Reply) -> Progress<Self, Self::Output>;
}

/// Where a session that started as `start` stands after `replies`, handed to
/// it in turn, if each of them answers the call that was then pending.
pub open spec fn after<S: Session>(start: S, replies: Seq<Reply>) -> Option<
    Progress<S, S::Output>,
>
    decreases replies.len(),
{
    if replies.len() == 0 {
        Some(Progress::Pending(start))
    } else {
        match after(start, replies.drop_last()) {
            Some(Progress::Pending(session)) => if session.pending().answered_by(replies.last()) {
                Some(session.step(replies.last()))
            } else {
                None
            },
            _ => None,
        }
    }
}

/// The calls that `replies` answered, in a session that started as `start`.
pub open spec fn asked<S: Session>(start: S, replies: Seq<Reply>) -> Seq<Call> {
    Seq::new(
        replies.len(),
        |i: int|
            match after(start, replies.take(i)) {
                Some(Progress::Pending(session)) => session.pending(),
                _ => arbitrary(),
            },
    )
}

/// Whatever a session has taken stays taken: if it took all of `replies`, it
/// took the first `i` of them and then had a call pending, which
/// `replies[i]` answered and moved on.
pub proof fn lemma_after_prefix<S: Session>(start: S, replies: Seq<Reply>, i: int)
    requires
        after(start, replies) is Some,
        0 <= i < replies.len(),
    ensures
        after(start, replies.take(i)) matches Some(Progress::Pending(session))
            && session.pending().answered_by(replies[i]) && after(start, replies.take(i + 1))
            == Some(session.step(replies[i])),
    decreases replies.len(),
{
    if i == replies.len() - 1 {
        assert(replies.take(i) == replies.drop_last());
        assert(replies.take(i + 1) == replies);
    } else {
        lemma_after_prefix(start, replies.drop_last(), i);
        assert(replies.drop_last().take(i) == replies.take(i));
        assert(replies.drop_last().take(i + 1) == replies.take(i + 1));
    }
}

/// The calls of a session that has ended, as the engine wants them: a handle
/// is asked for first and once. Where there was none to be had, nothing
/// follows. Else the handle is freed last and once, so every other call
/// falls between the two, on a handle that is there.
pub open spec fn bracketed(calls: Seq<Call>, acquired: bool) -> bool {
    &&& calls.len() >= 1
    &&& calls[0] == Call::New
    &&& forall|i: int| 0 < i < calls.len() ==> calls[i] != Call::New
    &&& if acquired {
        &&& calls.len() >= 2
        &&& calls.last() == Call::Free
        &&& forall|i: int| 0 <= i < calls.len() - 1 ==> calls[i] != Call::Free
    } else {
        calls.len() == 1
    }
}

} // verus!
