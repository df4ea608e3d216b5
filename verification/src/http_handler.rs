//! The error body handed to the HTTP layer for serialization.

use vstd::prelude::*;

verus! {

/// The body of an error response: a message for the client.
#[derive(Debug, PartialEq)]
pub struct HttpError {
    pub message: String,
}

impl HttpError {
    /// An error body carrying `message` unchanged.
    pub fn new(message: String) -> (error: Self)
        ensures
            error.message@ == message@,
    {
        HttpError { message }
    }
}

} // verus!
