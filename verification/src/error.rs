//! The errors of the client.

use vstd::prelude::*;

verus! {

/// What can go wrong between a request record and a response record.
#[derive(Clone, Debug, PartialEq, Eq)]
pub enum ApiError {
    /// The request did not reach the server, or no reply came back.
    Transport,
    /// The server replied with a status outside the 200s. Holds the status
    /// and the body of the reply.
    HttpStatus(u16, String),
    /// The body of the reply is not the expected record. Holds the start of
    /// the body.
    Decode(String),
    /// The request record has no place in a query string.
    Serialize,
}

} // verus!
