//! Turning JSON text into a feed.
//!
//! Decoding only asks that the text is well-formed JSON whose outermost
//! value is an object. Whether the object is a valid feed is a separate
//! question, put with `is_valid`.

use crate::error::Error;
use crate::feed::Feed;
use crate::json::{doc_of, into_object, json_of, parse_slice, parsed, Json};
use serde_json::Value;
use vstd::prelude::*;
use vstd::string::StringSliceAdditionalSpecFns;

verus! {

/// `r` is the outcome of decoding, given what the parser made of the input:
/// a feed over the object that was parsed, a type error for any other
/// parsed value, the parser's error where nothing was parsed.
pub open spec fn decodes_to(r: Result<Feed, Error>, value: Option<Json>) -> bool {
    match value {
        Some(Json::Object(d)) => r matches Ok(feed) && feed@ == d,
        Some(_) => r matches Err(Error::UnexpectedType),
        None => r matches Err(Error::SerdeJson(_)),
    }
}

/// Attempts to JSON decode a `str` and return a `Feed`.
///
/// # Errors
///
/// If the string cannot be JSON decoded, then `Error::SerdeJson` is returned.
///
/// If the decoded JSON value is not an Object, then `Error::UnexpectedType`
/// is returned.
pub fn from_str(s: &str) -> (r: Result<Feed, Error>)
    ensures
        decodes_to(r, parsed(s.spec_bytes())),
{
    from_slice(s.as_bytes())
}

/// Attempts to JSON decode a byte slice and return a `Feed`.
///
/// # Errors
///
/// If the byte slice cannot be JSON decoded, then `Error::SerdeJson` is
/// returned.
///
/// If the decoded JSON value is not an Object, then `Error::UnexpectedType`
/// is returned.
pub fn from_slice(v: &[u8]) -> (r: Result<Feed, Error>)
    ensures
        decodes_to(r, parsed(v@)),
{
    match parse_slice(v) {
        Ok(value) => from_value(value),
        Err(e) => Err(Error::from(e)),
    }
}

/// Attempts to return a `Feed` from a JSON `Value`.
///
/// # Errors
///
/// If the JSON value is not an Object, then `Error::UnexpectedType` is
/// returned.
pub fn from_value(value: Value) -> (r: Result<Feed, Error>)
    ensures
        decodes_to(r, Some(json_of(value))),
{
    match into_object(value) {
        Some(obj) => Ok(Feed::from(obj)),
        None => Err(Error::UnexpectedType),
    }
}

} // verus!
