use libc::c_int;
use vstd::prelude::*;

verus! {

/// The result type.
pub type Result<T> = std::result::Result<T, Error>;

/// A generic error.
#[derive(Debug, PartialEq, Eq)]
pub enum Error {
    /// The engine returned one of its status codes.
    OppaiReturns(OppaiError),
    /// The engine returned a status that is none of its codes: what is
    /// wrong, and the status as it came.
    OppaiFails(&'static str, c_int),
    /// Unknown mode returned from the engine.
    OppaiUnknownMode(c_int),
    /// The content contains a \0: where the first one is, and the content.
    InvalidPathNull(usize, Vec<u8>),
    /// Cannot convert non-standard mode to another mode.
    CannotConvertMode,
    /// max_combo invalid, # of misses invalid
    InvalidCombo,
    /// Accuracy not between 0 and 100
    InvalidAccuracy,
}

/// An error returned from the engine.
#[derive(Copy, Clone, PartialEq, Eq, Structural, Debug)]
pub enum OppaiError {
    /// ERR_MORE
    ErrMore,
    /// ERR_SYNTAX
    ErrSyntax,
    /// ERR_TRUNCATED
    ErrTruncated,
    /// ERR_NOTIMPLEMENTED
    ErrNotImplemented,
    /// ERR_IO
    ErrIO,
    /// ERR_FORMAT
    ErrFormat,
    /// ERR_OOM
    ErrOOM,
}

impl OppaiError {
    /// The status code that the engine returns for this error.
    pub open spec fn spec_code(self) -> int {
        match self {
            OppaiError::ErrMore => -1,
            OppaiError::ErrSyntax => -2,
            OppaiError::ErrTruncated => -3,
            OppaiError::ErrNotImplemented => -4,
            OppaiError::ErrIO => -5,
            OppaiError::ErrFormat => -6,
            OppaiError::ErrOOM => -7,
        }
    }

    /// The error that the engine means by status code `x`, if it is one of
    /// the seven.
    pub open spec fn of_code(x: c_int) -> Option<OppaiError> {
        if x == -1 {
            Some(OppaiError::ErrMore)
        } else if x == -2 {
            Some(OppaiError::ErrSyntax)
        } else if x == -3 {
            Some(OppaiError::ErrTruncated)
        } else if x == -4 {
            Some(OppaiError::ErrNotImplemented)
        } else if x == -5 {
            Some(OppaiError::ErrIO)
        } else if x == -6 {
            Some(OppaiError::ErrFormat)
        } else if x == -7 {
            Some(OppaiError::ErrOOM)
        } else {
            None
        }
    }

    /// What a status of the engine resolves to: success for 0, the error
    /// of that code for the seven known ones, and for anything else a
    /// failure that keeps the status as it came.
    pub open spec fn spec_resolve(x: c_int) -> Result<()> {
        if x == 0 {
            Ok(())
        } else {
            match Self::of_code(x) {
                Some(e) => Err(Error::OppaiReturns(e)),
                None => Err(Error::OppaiFails("Unknown error code", x)),
            }
        }
    }

    /// The status code that the engine returns for this error.
    pub fn code(self) -> (x: c_int)
        ensures
            x == self.spec_code(),
            -7 <= x <= -1,
            Self::of_code(x) == Some(self),
    {
        match self {
            OppaiError::ErrMore => -1,
            OppaiError::ErrSyntax => -2,
            OppaiError::ErrTruncated => -3,
            OppaiError::ErrNotImplemented => -4,
            OppaiError::ErrIO => -5,
            OppaiError::ErrFormat => -6,
            OppaiError::ErrOOM => -7,
        }
    }

    /// Resolves a status code returned from a call into a Result.
    #[verifier::when_used_as_spec(spec_resolve)]
    pub fn resolve(x: c_int) -> (r: Result<()>)
        ensures
            r == Self::spec_resolve(x),
            r is Ok <==> x == 0,
            r matches Err(Error::OppaiReturns(e)) ==> e.spec_code() == x,
            r matches Err(Error::OppaiFails(_, status)) ==> status == x,
    {
        Err(
            Error::OppaiReturns(
                match x {
                    0 => return Ok(()),
                    -1 => OppaiError::ErrMore,
                    -2 => OppaiError::ErrSyntax,
                    -3 => OppaiError::ErrTruncated,
                    -4 => OppaiError::ErrNotImplemented,
                    -5 => OppaiError::ErrIO,
                    -6 => OppaiError::ErrFormat,
                    -7 => OppaiError::ErrOOM,
                    _ => return Err(Error::OppaiFails("Unknown error code", x)),
                },
            ),
        )
    }
}

/// No status is lost in resolving: the result says which status it was. A
/// known error has the status as its code, an unknown one keeps it, and so
/// two statuses that resolve to the same result are the same.
pub proof fn lemma_resolve_keeps_status(x: c_int, y: c_int)
    ensures
        OppaiError::spec_resolve(x) matches Err(Error::OppaiReturns(e)) ==> e.spec_code() == x,
        OppaiError::spec_resolve(x) matches Err(Error::OppaiFails(_, status)) ==> status == x,
        OppaiError::spec_resolve(x) is Ok ==> x == 0,
        OppaiError::spec_resolve(x) == OppaiError::spec_resolve(y) ==> x == y,
{
}

} // verus!
