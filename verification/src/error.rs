//! Errors of the library.
use vstd::prelude::*;

use crate::spa::pod::PodError;

verus! {

/// Errors of the library.
#[derive(Debug, Clone, Copy)]
pub enum Error {
    /// A time does not fit the time format of SPA.
    WrongTimeFormat,
    /// A pod could not be parsed or written.
    PodParseError(PodError),
}

impl From<PodError> for Error {
    fn from(value: PodError) -> (r: Self) {
        Error::PodParseError(value)
    }
}

impl vstd::std_specs::convert::FromSpecImpl<PodError> for Error {
    open spec fn obeys_from_spec() -> bool {
        true
    }

    open spec fn from_spec(v: PodError) -> Self {
        Error::PodParseError(v)
    }
}

} // verus!
