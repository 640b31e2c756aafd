use libc::c_int;
use vstd::prelude::*;
use vstd::std_specs::convert::FromSpecImpl;
use vstd::std_specs::convert::TryFromSpecImpl;

use crate::errors::Error;

verus! {

/// Available modes for osu!
#[derive(Clone, Copy, PartialEq, Eq, Structural, Debug)]
pub enum Mode {
    Std,
    Taiko,
}

impl Mode {
    /// The number by which the engine knows this mode.
    pub open spec fn code(self) -> c_int {
        match self {
            Mode::Std => 0,
            Mode::Taiko => 1,
        }
    }

    /// The mode that the engine knows by `code`, if it is one of ours.
    pub open spec fn of_code(code: c_int) -> Option<Mode> {
        if code == 0 {
            Some(Mode::Std)
        } else if code == 1 {
            Some(Mode::Taiko)
        } else {
            None
        }
    }
}

impl From<Mode> for c_int {
    fn from(m: Mode) -> (code: c_int) {
        match m {
            Mode::Std => 0,
            Mode::Taiko => 1,
        }
    }
}

impl FromSpecImpl<Mode> for c_int {
    open spec fn obeys_from_spec() -> bool {
        true
    }

    open spec fn from_spec(m: Mode) -> c_int {
        m.code()
    }
}

impl TryFrom<c_int> for Mode {
    type Error = Error;

    fn try_from(value: c_int) -> (r: Result<Self, Self::Error>) {
        Ok(
            match value {
                0 => Mode::Std,
                1 => Mode::Taiko,
                _ => return Err(Error::OppaiUnknownMode(value)),
            },
        )
    }
}

impl TryFromSpecImpl<c_int> for Mode {
    open spec fn obeys_try_from_spec() -> bool {
        true
    }

    open spec fn try_from_spec(value: c_int) -> Result<Self, Self::Error> {
        match Mode::of_code(value) {
            Some(m) => Ok(m),
            None => Err(Error::OppaiUnknownMode(value)),
        }
    }
}

} // verus!
