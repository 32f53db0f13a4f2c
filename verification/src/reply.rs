//! What comes back for a request, and what it amounts to.

use vstd::prelude::*;
use crate::error::{ApiError, ApiErrorView};

verus! {

/// What came back for a request that was sent.
#[derive(Debug, PartialEq, Eq)]
pub enum Reply<T> {
    /// No response came back; the text says why.
    Failed(String),
    /// A response came back.
    Response {
        /// The status code of the response.
        status: u16,
        /// The body of the response as a value, or why it could not be read
        /// as one.
        body: Result<T, String>,
    },
}

/// True for the status codes that report a client or a server error.
pub open spec fn is_error_status(status: u16) -> bool {
    400 <= status < 600
}

/// What a reply amounts to. A missing response is a failure; so is an error
/// status, whatever the body holds; so is a body that could not be read;
/// anything else gives the value of the body.
pub open spec fn reply_outcome<T>(reply: Reply<T>) -> Result<T, ApiErrorView> {
    match reply {
        Reply::Failed(reason) => Err(ApiErrorView::Transport(reason@)),
        Reply::Response { status, body } => if is_error_status(status) {
            Err(ApiErrorView::Status(status))
        } else {
            match body {
                Ok(value) => Ok(value),
                Err(reason) => Err(ApiErrorView::Transport(reason@)),
            }
        },
    }
}

/// True where `result` is what the model `expected` says.
pub open spec fn outcome_as<T>(result: Result<T, ApiError>, expected: Result<T, ApiErrorView>) -> bool {
    match (result, expected) {
        (Ok(value), Ok(wanted)) => value == wanted,
        (Err(error), Err(wanted)) => error@ == wanted,
        _ => false,
    }
}

/// Tells whether `status` reports a client or a server error.
pub fn status_is_error(status: u16) -> (b: bool)
    ensures
        b == is_error_status(status),
{
    400 <= status && status < 600
}

impl<T> Reply<T> {
    /// The value that this reply carries, or the failure that it reports.
    pub fn into_result(self) -> (r: Result<T, ApiError>)
        ensures
            outcome_as(r, reply_outcome(self)),
    {
        match self {
            Reply::Failed(reason) => Err(ApiError::Transport(reason)),
            Reply::Response { status, body } => {
                if status_is_error(status) {
                    Err(ApiError::Status(status))
                } else {
                    match body {
                        Ok(value) => Ok(value),
                        Err(reason) => Err(ApiError::Transport(reason)),
                    }
                }
            },
        }
    }
}

} // verus!
