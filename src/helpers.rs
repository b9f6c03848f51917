//! Decoding a response body.
use vstd::prelude::*;

use serde_json::Value;

use crate::error::SanityError;

verus! {

#[verifier::external_type_specification]
#[verifier::external_body]
pub struct ExValue(Value);

#[verifier::external_type_specification]
#[verifier::external_body]
pub struct ExJsonError(serde_json::Error);

/// The JSON value that a text denotes, if it is valid JSON.
pub uninterp spec fn json_of(text: Seq<char>) -> Option<Value>;

/// Relies on `serde_json::from_str` into a `Value`: it succeeds exactly on
/// valid JSON text, and its value depends on the text alone.
#[verifier::external_body]
fn parse_value(text: &str) -> (r: Result<Value, serde_json::Error>)
    ensures
        r is Ok <==> json_of(text@) is Some,
        r is Ok ==> json_of(text@) == Some(r->Ok_0),
{
    serde_json::from_str::<Value>(text)
}

/// The JSON value of a whole response body; `Decode` when the body is not
/// valid JSON.
pub fn get_json(body: &str) -> (r: Result<Value, SanityError>)
    ensures
        match json_of(body@) {
            Some(v) => r == Ok::<Value, SanityError>(v),
            None => r == Err::<Value, SanityError>(SanityError::Decode),
        },
{
    match parse_value(body) {
        Ok(v) => Ok(v),
        Err(_) => Err(SanityError::Decode),
    }
}

} // verus!
