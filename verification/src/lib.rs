//! Scoring scenarios for osu! beatmaps, made ready for
//! [`oppai-ng`](https://github.com/Francesco149/oppai-ng).
//!
//! An [`Oppai`] holds a map and the play to score on it: mods, mode, combo
//! and accuracy, each checked against the map before it is taken. The
//! engine itself is not part of this library. [`Oppai::new_from_content`]
//! and [`Oppai::run`] give sessions that name the engine's calls one by one
//! and take what each came back with.
pub mod discovery;
pub mod engine;
pub mod errors;
pub mod evaluation;
pub mod modes;
pub mod mods;
pub mod single;

pub use discovery::{Discovery, DiscoveryState, Stage};
pub use engine::{Call, Progress, Reply};
pub use evaluation::{Evaluation, EvaluationState};
pub use errors::{Error, OppaiError, Result};
pub use modes::Mode;
pub use mods::Mods;
pub use single::Single;

use libc::c_int;
use vstd::prelude::*;

verus! {

/// Combo can be an FC or a non-FC with max combo and # of misses.
#[derive(Copy, Clone, PartialEq, Eq, Structural, Debug)]
pub enum Combo {
    /// Full combo, no misses, u32 is the # of slider ends missed.
    FC(u32),
    /// Not a full combo.
    NonFC { max_combo: u32, misses: u32 },
}

impl Combo {
    /// Whether a map whose longest combo is `map_max_combo` allows this
    /// combo: fewer slider ends missed than the map's combo is long, or a
    /// combo and misses that together do not exceed it.
    pub open spec fn fits(self, map_max_combo: u32) -> bool {
        match self {
            Combo::FC(slider_ends_missed) => slider_ends_missed < map_max_combo,
            Combo::NonFC { max_combo, misses } => max_combo + misses <= map_max_combo,
        }
    }

    /// A maximal combo FC.
    pub fn perfect() -> (combo: Combo)
        ensures
            combo == Combo::FC(0),
    {
        Combo::FC(0)
    }

    /// Constructs a non-fc Combo.
    pub fn non_fc(max_combo: u32, misses: u32) -> (combo: Combo)
        ensures
            combo == (Combo::NonFC { max_combo, misses }),
    {
        Combo::NonFC { max_combo, misses }
    }
}

/// What an [`Oppai`] holds: a map, and what was set for the play.
pub struct Scenario {
    /// The map, as the bytes of its file.
    pub content: Seq<u8>,
    /// The mode that the map was made for.
    pub map_mode: Mode,
    /// The longest combo that the map allows.
    pub max_combo: u32,
    /// The combo of the play, if one was set.
    pub combo: Option<Combo>,
    /// The accuracy of the play, if one was set.
    pub accuracy: Option<Single>,
    /// The mode to play the map in, if one was set.
    pub mode: Option<Mode>,
    /// The mods of the play, if any were set.
    pub mods: Option<Mods>,
}

impl Scenario {
    /// A map with nothing set for the play.
    pub open spec fn new(content: Seq<u8>, map_mode: Mode, max_combo: u32) -> Scenario {
        Scenario {
            content,
            map_mode,
            max_combo,
            combo: None,
            accuracy: None,
            mode: None,
            mods: None,
        }
    }

    /// Whether the map can be played in `mode`: any map in its own mode,
    /// and a standard map in every mode.
    pub open spec fn converts_to(self, mode: Mode) -> bool {
        self.map_mode == Mode::Std || mode == self.map_mode
    }

    /// What every `Oppai` holds: content without a zero byte, and nothing
    /// set that its map does not allow.
    pub open spec fn valid(self) -> bool {
        &&& !self.content.contains(0u8)
        &&& self.combo matches Some(combo) ==> combo.fits(self.max_combo)
        &&& self.accuracy matches Some(accuracy) ==> accuracy@.is_percentage()
        &&& self.mode matches Some(mode) ==> self.converts_to(mode)
    }

    /// The calls that hand the combo to the engine: for a full combo, the
    /// map's longest combo less the slider ends missed; else the combo and
    /// then the misses.
    pub open spec fn combo_calls(self) -> Seq<Call> {
        match self.combo {
            Some(Combo::FC(slider_ends_missed)) => seq![
                Call::SetCombo(((self.max_combo - slider_ends_missed) as u32) as c_int),
            ],
            Some(Combo::NonFC { max_combo, misses }) => seq![
                Call::SetCombo(max_combo as c_int),
                Call::SetNmiss(misses as c_int),
            ],
            None => seq![],
        }
    }

    /// The calls that hand the mode to the engine. Only a standard map is
    /// converted: the engine is told whether to convert it, then into what.
    /// For any other map the engine is told nothing.
    pub open spec fn mode_calls(self) -> Seq<Call> {
        match self.mode {
            Some(mode) if self.map_mode == Mode::Std => seq![
                Call::SetModeOverride(
                    if mode == Mode::Std {
                        0
                    } else {
                        1
                    },
                ),
                Call::SetMode(mode.code()),
            ],
            _ => seq![],
        }
    }

    /// The call that hands the accuracy to the engine, as a percentage.
    pub open spec fn accuracy_calls(self) -> Seq<Call> {
        match self.accuracy {
            Some(accuracy) => seq![Call::SetAccuracyPercent(accuracy)],
            None => seq![],
        }
    }

    /// The call that hands the mods to the engine, as their bits.
    pub open spec fn mods_calls(self) -> Seq<Call> {
        match self.mods {
            Some(mods) => seq![Call::SetMods(mods.bits())],
            None => seq![],
        }
    }

    /// The calls of one run of the engine on this scenario. What was set
    /// goes in first: combo, mode, accuracy, mods. The content goes in last,
    /// since the engine computes when it loads it. Then the two results are
    /// read, and the handle is freed.
    pub open spec fn script(self) -> Seq<Call> {
        seq![Call::New] + self.combo_calls() + self.mode_calls() + self.accuracy_calls()
            + self.mods_calls() + seq![Call::Data, Call::Pp, Call::Stars, Call::Free]
    }

    /// The same scenario with these mods set.
    pub open spec fn with_mods(self, mods: Mods) -> Scenario {
        Scenario { mods: Some(mods), ..self }
    }

    /// The same scenario with this mode set.
    pub open spec fn with_mode(self, mode: Mode) -> Scenario {
        Scenario { mode: Some(mode), ..self }
    }

    /// The same scenario with this combo set.
    pub open spec fn with_combo(self, combo: Combo) -> Scenario {
        Scenario { combo: Some(combo), ..self }
    }

    /// The same scenario with this accuracy set.
    pub open spec fn with_accuracy(self, accuracy: Single) -> Scenario {
        Scenario { accuracy: Some(accuracy), ..self }
    }
}

/// The script of every scenario has one shape: the handle first, then
/// nothing but settings, then loading, the two results, and the handle
/// freed.
pub proof fn lemma_script_shape(scenario: Scenario)
    ensures
        ({
            let script = scenario.script();
            let n = script.len() as int;
            &&& 5 <= n <= 11
            &&& script[0] == Call::New
            &&& forall|i: int| 0 < i < n - 4 ==> (#[trigger] script[i]).is_setter()
            &&& script[n - 4] == Call::Data
            &&& script[n - 3] == Call::Pp
            &&& script[n - 2] == Call::Stars
            &&& script[n - 1] == Call::Free
        }),
{
    let a = scenario.combo_calls();
    let b = scenario.mode_calls();
    let c = scenario.accuracy_calls();
    let d = scenario.mods_calls();
    let settings = a + b + c + d;
    assert forall|i: int| 0 <= i < settings.len() implies (#[trigger] settings[i]).is_setter() by {
        assert forall|j: int| 0 <= j < a.len() implies (#[trigger] a[j]).is_setter() by {}
        assert forall|j: int| 0 <= j < b.len() implies (#[trigger] b[j]).is_setter() by {}
        assert forall|j: int| 0 <= j < c.len() implies (#[trigger] c[j]).is_setter() by {}
        assert forall|j: int| 0 <= j < d.len() implies (#[trigger] d[j]).is_setter() by {}
    }
    let script = scenario.script();
    assert forall|i: int| 0 < i < script.len() - 4 implies (#[trigger] script[i]).is_setter() by {
        assert(script[i] == settings[i - 1]);
    }
}

/// Setting anew overwrites. Of two values set one after the other, the
/// second stands as if the first had never been set, and it alone is handed
/// to the engine: mods are replaced, not merged.
pub proof fn lemma_last_set_stands(
    scenario: Scenario,
    mods: (Mods, Mods),
    mode: (Mode, Mode),
    combo: (Combo, Combo),
    accuracy: (Single, Single),
)
    ensures
        scenario.with_mods(mods.0).with_mods(mods.1) == scenario.with_mods(mods.1),
        scenario.with_mode(mode.0).with_mode(mode.1) == scenario.with_mode(mode.1),
        scenario.with_combo(combo.0).with_combo(combo.1) == scenario.with_combo(combo.1),
        scenario.with_accuracy(accuracy.0).with_accuracy(accuracy.1) == scenario.with_accuracy(
            accuracy.1,
        ),
        scenario.with_mods(mods.0).with_mods(mods.1).mods_calls() == seq![
            Call::SetMods(mods.1.bits()),
        ],
        scenario.with_accuracy(accuracy.0).with_accuracy(accuracy.1).accuracy_calls() == seq![
            Call::SetAccuracyPercent(accuracy.1),
        ],
{
}

/// The four settings do not depend on one another. In whatever order they
/// are set, the scenario is the same, and whether a value is taken does not
/// depend on what else is set.
pub proof fn lemma_settings_independent(
    scenario: Scenario,
    mods: Mods,
    mode: Mode,
    combo: Combo,
    accuracy: Single,
)
    ensures
        scenario.with_mods(mods).with_mode(mode) == scenario.with_mode(mode).with_mods(mods),
        scenario.with_mods(mods).with_combo(combo) == scenario.with_combo(combo).with_mods(mods),
        scenario.with_mods(mods).with_accuracy(accuracy) == scenario.with_accuracy(
            accuracy,
        ).with_mods(mods),
        scenario.with_mode(mode).with_combo(combo) == scenario.with_combo(combo).with_mode(mode),
        scenario.with_mode(mode).with_accuracy(accuracy) == scenario.with_accuracy(
            accuracy,
        ).with_mode(mode),
        scenario.with_combo(combo).with_accuracy(accuracy) == scenario.with_accuracy(
            accuracy,
        ).with_combo(combo),
        scenario.with_mods(mods).converts_to(mode) == scenario.converts_to(mode),
        scenario.with_combo(combo).converts_to(mode) == scenario.converts_to(mode),
        scenario.with_accuracy(accuracy).converts_to(mode) == scenario.converts_to(mode),
        scenario.with_mods(mods).max_combo == scenario.max_combo,
        scenario.with_mode(mode).max_combo == scenario.max_combo,
        scenario.with_accuracy(accuracy).max_combo == scenario.max_combo,
{
}

/// A valid scenario stays valid when a value that its map allows is set.
pub proof fn lemma_settings_keep_valid(
    scenario: Scenario,
    mods: Mods,
    mode: Mode,
    combo: Combo,
    accuracy: Single,
)
    requires
        scenario.valid(),
    ensures
        scenario.with_mods(mods).valid(),
        scenario.converts_to(mode) ==> scenario.with_mode(mode).valid(),
        combo.fits(scenario.max_combo) ==> scenario.with_combo(combo).valid(),
        accuracy@.is_percentage() ==> scenario.with_accuracy(accuracy).valid(),
{
}

/// A map and a play on it, to be scored by the engine.
pub struct Oppai {
    map_content: Vec<u8>,
    map_mode: Mode,
    max_combo: u32,
    // What was set is handed to the engine only when it runs: it takes the
    // settings into account when it loads the map.
    combo: Option<Combo>,
    accuracy: Option<Single>,
    mode: Option<Mode>,
    mods: Option<Mods>,
}

impl View for Oppai {
    type V = Scenario;

    closed spec fn view(&self) -> Scenario {
        Scenario {
            content: self.map_content@,
            map_mode: self.map_mode,
            max_combo: self.max_combo,
            combo: self.combo,
            accuracy: self.accuracy,
            mode: self.mode,
            mods: self.mods,
        }
    }
}

impl Oppai {
    #[verifier::type_invariant]
    spec fn valid(&self) -> bool {
        self@.valid()
    }

    /// Starts an `Oppai` from a map's file, given as the bytes that were
    /// read from it. A file with a zero byte in it is refused before
    /// anything is called on the engine: no session comes of it, and only a
    /// session names calls.
    pub fn new(file: Vec<u8>) -> (r: Result<Discovery>)
        ensures
            match r {
                Ok(session) => {
                    &&& !file@.contains(0u8)
                    &&& session@ == DiscoveryState::start(file@)
                },
                Err(e) => {
                    &&& e matches Error::InvalidPathNull(position, bytes)
                    &&& bytes@ == file@
                    &&& position < file@.len()
                    &&& file@[position as int] == 0
                    &&& !file@.take(position as int).contains(0u8)
                },
            },
    {
        Self::new_from_content(file)
    }

    /// Starts an `Oppai` from a map's content: a session that names the
    /// calls by which the engine tells the map's mode and longest combo, and
    /// ends with the `Oppai`. Content with a zero byte in it is refused
    /// before anything is called: the engine takes the content as a C
    /// string. The error says where the first zero byte is, and hands the
    /// content back.
    pub fn new_from_content(content: Vec<u8>) -> (r: Result<Discovery>)
        ensures
            match r {
                Ok(session) => {
                    &&& !content@.contains(0u8)
                    &&& session@ == DiscoveryState::start(content@)
                },
                Err(e) => {
                    &&& e matches Error::InvalidPathNull(position, bytes)
                    &&& bytes@ == content@
                    &&& position < content@.len()
                    &&& content@[position as int] == 0
                    &&& !content@.take(position as int).contains(0u8)
                },
            },
    {
        let mut i: usize = 0;
        while i < content.len()
            invariant
                i <= content.len(),
                !content@.take(i as int).contains(0u8),
            decreases content.len() - i,
        {
            if content[i] == 0 {
                return Err(Error::InvalidPathNull(i, content));
            }
            assert(content@.take(i + 1) == content@.take(i as int).push(content@[i as int]));
            i += 1;
        }
        assert(content@.take(i as int) == content@);
        Ok(Discovery::new(content))
    }

    /// The map as the engine told it, with nothing set for the play.
    pub(crate) fn loaded(content: Vec<u8>, map_mode: Mode, max_combo: u32) -> (oppai: Oppai)
        requires
            !content@.contains(0u8),
        ensures
            oppai@ == Scenario::new(content@, map_mode, max_combo),
    {
        Oppai {
            map_content: content,
            map_mode,
            max_combo,
            combo: None,
            accuracy: None,
            mode: None,
            mods: None,
        }
    }

    /// Sets the mods for the play.
    pub fn mods(&mut self, mods: Mods) -> (this: &mut Self)
        ensures
            this@ == old(self)@.with_mods(mods),
            this@.valid(),
            *final(self) == *final(this),
    {
        proof {
            use_type_invariant(&*self);
        }
        self.mods = Some(mods);
        self
    }

    /// Sets the mode for the play.
    /// A play can be mode-set if and only if its map is Std, or the mode is
    /// the map's own.
    pub fn mode(&mut self, mode: Mode) -> (r: Result<&mut Self>)
        ensures
            match r {
                Ok(this) => {
                    &&& old(self)@.converts_to(mode)
                    &&& this@ == old(self)@.with_mode(mode)
                    &&& this@.valid()
                    &&& *final(self) == *final(this)
                },
                Err(e) => {
                    &&& !old(self)@.converts_to(mode)
                    &&& e == Error::CannotConvertMode
                    &&& *final(self) == *old(self)
                },
            },
    {
        proof {
            use_type_invariant(&*self);
        }
        match self.map_mode {
            Mode::Std => {},
            v => {
                if mode != v {
                    return Err(Error::CannotConvertMode);
                }
            },
        }
        self.mode = Some(mode);
        Ok(self)
    }

    fn set_mods(&self, script: &mut Vec<Call>, mods: Mods)
        requires
            self@.mods == Some(mods),
        ensures
            final(script)@ == old(script)@ + self@.mods_calls(),
    {
        script.push(Call::SetMods(mods.bits()));
    }

    fn set_mode(&self, script: &mut Vec<Call>, mode: Mode)
        requires
            self@.mode == Some(mode),
        ensures
            final(script)@ == old(script)@ + self@.mode_calls(),
    {
        match self.map_mode {
            Mode::Std => {
                script.push(
                    Call::SetModeOverride(
                        if mode == Mode::Std {
                            0
                        } else {
                            1
                        },
                    ),
                );
                script.push(Call::SetMode(mode.into()));
            },
            _ => (),
        }
    }

    /// Gets the maximum possible combo of a map.
    pub fn max_combo(&self) -> (max_combo: u32)
        ensures
            max_combo == self@.max_combo,
            self@.valid(),
    {
        proof {
            use_type_invariant(self);
        }
        self.max_combo
    }

    /// Sets the combo.
    pub fn combo(&mut self, combo: Combo) -> (r: Result<&mut Self>)
        ensures
            match r {
                Ok(this) => {
                    &&& combo.fits(old(self)@.max_combo)
                    &&& this@ == old(self)@.with_combo(combo)
                    &&& this@.valid()
                    &&& *final(self) == *final(this)
                },
                Err(e) => {
                    &&& !combo.fits(old(self)@.max_combo)
                    &&& e == Error::InvalidCombo
                    &&& *final(self) == *old(self)
                },
            },
    {
        proof {
            use_type_invariant(&*self);
        }
        let fits = match combo {
            Combo::FC(slider_ends_missed) => slider_ends_missed < self.max_combo(),
            Combo::NonFC { max_combo, misses } => (max_combo as u64) + (misses as u64)
                <= self.max_combo() as u64,
        };
        if !fits {
            return Err(Error::InvalidCombo);
        }
        self.combo = Some(combo);
        Ok(self)
    }

    fn set_combo(&self, script: &mut Vec<Call>, combo: Combo)
        requires
            self@.combo == Some(combo),
        ensures
            final(script)@ == old(script)@ + self@.combo_calls(),
    {
        proof {
            use_type_invariant(self);
        }
        match combo {
            Combo::FC(slider_ends_missed) => {
                script.push(
                    Call::SetCombo(
                        #[verifier::truncate]
                        ((self.max_combo() - slider_ends_missed) as c_int),
                    ),
                );
            },
            Combo::NonFC { max_combo, misses } => {
                script.push(
                    Call::SetCombo(
                        #[verifier::truncate]
                        (max_combo as c_int),
                    ),
                );
                script.push(
                    Call::SetNmiss(
                        #[verifier::truncate]
                        (misses as c_int),
                    ),
                );
            },
        }
    }

    /// Sets the accuracy.
    pub fn accuracy(&mut self, accuracy: Single) -> (r: Result<&mut Self>)
        ensures
            match r {
                Ok(this) => {
                    &&& accuracy@.is_percentage()
                    &&& this@ == old(self)@.with_accuracy(accuracy)
                    &&& this@.valid()
                    &&& *final(self) == *final(this)
                },
                Err(e) => {
                    &&& !accuracy@.is_percentage()
                    &&& e == Error::InvalidAccuracy
                    &&& *final(self) == *old(self)
                },
            },
    {
        proof {
            use_type_invariant(&*self);
        }
        if !accuracy.is_percentage() {
            return Err(Error::InvalidAccuracy);
        } else {
            self.accuracy = Some(accuracy);
            Ok(self)
        }
    }

    fn set_accuracy(&self, script: &mut Vec<Call>, accuracy: Single)
        requires
            self@.accuracy == Some(accuracy),
        ensures
            final(script)@ == old(script)@ + self@.accuracy_calls(),
    {
        script.push(Call::SetAccuracyPercent(accuracy));
    }

    /// The content of the map, for the engine to load.
    pub fn content(&self) -> (content: &Vec<u8>)
        ensures
            content@ == self@.content,
            self@.valid(),
    {
        proof {
            use_type_invariant(self);
        }
        &self.map_content
    }

    /// Starts a run of the engine on this play: a session that names the
    /// calls to make, and ends with the performance points and the stars.
    pub fn run(&self) -> (session: Evaluation)
        ensures
            session@ == EvaluationState::start(self@.script()),
            self@.valid(),
    {
        proof {
            use_type_invariant(self);
        }
        let mut script: Vec<Call> = Vec::new();
        script.push(Call::New);
        if let Some(v) = self.combo {
            self.set_combo(&mut script, v)
        }
        if let Some(v) = self.mode {
            self.set_mode(&mut script, v)
        }
        if let Some(v) = self.accuracy {
            self.set_accuracy(&mut script, v)
        }
        if let Some(v) = self.mods {
            self.set_mods(&mut script, v)
        }
        script.push(Call::Data);
        script.push(Call::Pp);
        script.push(Call::Stars);
        script.push(Call::Free);
        assert(script@ == self@.script());
        Evaluation::new(script)
    }
}

} // verus!
