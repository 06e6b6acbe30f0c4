//! The one error that ends a start: the map could not be had.

use vstd::prelude::*;

verus! {

/// Why the game could not start, in words.
#[derive(Clone, Debug, PartialEq, Eq)]
pub struct Error {
    pub msg: String,
}

impl vstd::std_specs::convert::FromSpecImpl<String> for Error {
    open spec fn obeys_from_spec() -> bool {
        true
    }

    open spec fn from_spec(msg: String) -> Error {
        Error { msg }
    }
}

impl From<String> for Error {
    /// The error whose message is `msg`: what went wrong, in the words of
    /// whatever failed.
    fn from(msg: String) -> (r: Error) {
        Error { msg }
    }
}

} // verus!
