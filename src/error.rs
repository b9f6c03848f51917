//! Errors that the library reports to its caller.
use vstd::prelude::*;

verus! {

/// What can go wrong before a request is sent or after a body was read.
#[derive(Debug, Clone, Copy, PartialEq, Eq, Structural)]
pub enum SanityError {
    /// The access token cannot stand in an HTTP header value.
    InvalidHeader,
    /// No query was given and none is stored in the configuration.
    MissingQuery,
    /// The response body is not valid JSON.
    Decode,
}

} // verus!
