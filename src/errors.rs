//! Client-visible errors of the gateway.

use vstd::prelude::*;

verus! {

/// An error answered to a client: a malformed request (4xx) or a failure
/// inside the gateway (5xx), each with a message.
#[derive(Clone, Debug, PartialEq, Eq)]
pub enum Error {
    BadRequest(String),
    Internal(String),
}

impl Error {
    /// The HTTP status code that answers this error.
    pub fn status_code(&self) -> (r: u16)
        ensures
            r == (match self {
                Error::BadRequest(_) => 400u16,
                Error::Internal(_) => 500u16,
            }),
    {
        match self {
            Error::BadRequest(_) => 400,
            Error::Internal(_) => 500,
        }
    }
}

} // verus!
