//! The failures that an operation reports.

use vstd::prelude::*;
use crate::text::{decimal_text, push_decimal};

verus! {

/// The environment variable that supplies the credential.
pub const TOKEN_VAR: &'static str = "GITHUB_TOKEN";

/// Why an operation failed.
#[derive(Debug, PartialEq, Eq)]
pub enum ApiError {
    /// An operation needs the credential and none is configured.
    MissingToken,
    /// The credential cannot be written as the value of a header.
    InvalidHeader,
    /// The response carried this client or server error status.
    Status(u16),
    /// The request could not be carried out, or the body of the response
    /// could not be read; the text says why.
    Transport(String),
    /// The platform answered a GraphQL query with errors; this is the
    /// message of the first.
    GraphQl(String),
    /// The platform answered a GraphQL query with neither data nor errors.
    MissingData,
}

/// An [`ApiError`] with its texts as sequences of characters.
pub enum ApiErrorView {
    MissingToken,
    InvalidHeader,
    Status(u16),
    Transport(Seq<char>),
    GraphQl(Seq<char>),
    MissingData,
}

impl View for ApiError {
    type V = ApiErrorView;

    open spec fn view(&self) -> ApiErrorView {
        match self {
            ApiError::MissingToken => ApiErrorView::MissingToken,
            ApiError::InvalidHeader => ApiErrorView::InvalidHeader,
            ApiError::Status(status) => ApiErrorView::Status(*status),
            ApiError::Transport(text) => ApiErrorView::Transport(text@),
            ApiError::GraphQl(text) => ApiErrorView::GraphQl(text@),
            ApiError::MissingData => ApiErrorView::MissingData,
        }
    }
}

/// The message of a failure.
pub open spec fn message_text(error: ApiErrorView) -> Seq<char> {
    match error {
        ApiErrorView::MissingToken => "missing environment variable "@ + TOKEN_VAR@,
        ApiErrorView::InvalidHeader => "failed to parse header value"@,
        ApiErrorView::Status(status) => "HTTP status error: "@ + decimal_text(status as nat),
        ApiErrorView::Transport(text) => text,
        ApiErrorView::GraphQl(text) => "graphql error: "@ + text,
        ApiErrorView::MissingData => "missing graphql data"@,
    }
}

impl ApiError {
    /// The message of this failure.
    pub fn message(&self) -> (text: String)
        ensures
            text@ == message_text(self@),
    {
        match self {
            ApiError::MissingToken => {
                String::from_str("missing environment variable ").concat(TOKEN_VAR)
            },
            ApiError::InvalidHeader => String::from_str("failed to parse header value"),
            ApiError::Status(status) => {
                let mut text = String::from_str("HTTP status error: ");
                push_decimal(&mut text, *status as usize);
                text
            },
            ApiError::Transport(text) => text.clone(),
            ApiError::GraphQl(text) => String::from_str("graphql error: ").concat(text.as_str()),
            ApiError::MissingData => String::from_str("missing graphql data"),
        }
    }
}

} // verus!
