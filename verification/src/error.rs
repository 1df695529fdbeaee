//! The two ways a typed read or a decode can fail.

use serde_json::Error as JsonError;
use vstd::prelude::*;
use vstd::std_specs::convert::FromSpecImpl;

verus! {

/// All of the possible errors.
#[derive(Debug)]
#[non_exhaustive]
pub enum Error {
    /// A key is present, but its value is not of the kind that the accessor
    /// reads: a JSON object where a string is expected, an array with an
    /// element of the wrong kind, a number that is no unsigned integer.
    UnexpectedType,
    /// The input is not well-formed JSON; the parser's error is inside.
    SerdeJson(JsonError),
}

impl From<JsonError> for Error {
    fn from(error: JsonError) -> (r: Self) {
        Error::SerdeJson(error)
    }
}

impl FromSpecImpl<JsonError> for Error {
    open spec fn obeys_from_spec() -> bool {
        true
    }

    open spec fn from_spec(error: JsonError) -> Self {
        Error::SerdeJson(error)
    }
}

} // verus!
