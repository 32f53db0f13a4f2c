//! Building requests: where they go and which credential they carry.

use vstd::prelude::*;
use reqwest::header::HeaderValue;
use crate::error::{ApiError, ApiErrorView};
use crate::header::header_text_ok;
use crate::text::starts_with;

verus! {

/// The address that relative paths are resolved against.
pub const API_BASE: &'static str = "https://api.github.com/";

/// What an absolute address begins with.
pub const ABSOLUTE_PREFIX: &'static str = "https://";

/// What precedes the credential in the `Authorization` header.
pub const AUTHORIZATION_SCHEME: &'static str = "token ";

/// The method of a request.
#[derive(Debug, Clone, Copy, PartialEq, Eq, Structural)]
pub enum Method {
    Get,
    Post,
    Put,
    Delete,
    Head,
    Options,
    Connect,
    Patch,
    Trace,
}

/// A request that is ready to be sent and has not been sent.
#[derive(Debug, PartialEq, Eq)]
pub struct PreparedRequest {
    /// The method.
    pub method: Method,
    /// The absolute address.
    pub url: String,
    /// The value of the `Authorization` header, where the request has one.
    pub authorization: Option<String>,
}

/// A [`PreparedRequest`] with its texts as sequences of characters.
pub struct RequestView {
    pub method: Method,
    pub url: Seq<char>,
    pub authorization: Option<Seq<char>>,
}

impl View for PreparedRequest {
    type V = RequestView;

    open spec fn view(&self) -> RequestView {
        RequestView {
            method: self.method,
            url: self.url@,
            authorization: match self.authorization {
                Some(value) => Some(value@),
                None => None,
            },
        }
    }
}

/// The address that `url` stands for: itself where it is absolute, else the
/// path `url` below the base address.
pub open spec fn absolute_url(url: Seq<char>) -> Seq<char> {
    if ABSOLUTE_PREFIX@.is_prefix_of(url) {
        url
    } else {
        API_BASE@ + url
    }
}

/// The value of the `Authorization` header for the credential `token`.
pub open spec fn authorization_text(token: Seq<char>) -> Seq<char> {
    AUTHORIZATION_SCHEME@ + token
}

/// What preparing a request gives, for a client with the credential `token`:
/// a failure where the credential is required and absent, a failure where
/// it is present and cannot be a header's value, and else the request with
/// the header for the credential, if there is one.
pub open spec fn prepared(
    token: Option<Seq<char>>,
    require_auth: bool,
    method: Method,
    url: Seq<char>,
) -> Result<RequestView, ApiErrorView> {
    match token {
        None => if require_auth {
            Err(ApiErrorView::MissingToken)
        } else {
            Ok(RequestView { method, url: absolute_url(url), authorization: None })
        },
        Some(token) => if header_text_ok(authorization_text(token)) {
            Ok(
                RequestView {
                    method,
                    url: absolute_url(url),
                    authorization: Some(authorization_text(token)),
                },
            )
        } else {
            Err(ApiErrorView::InvalidHeader)
        },
    }
}

/// True where `result` is what the model `expected` says.
pub open spec fn prepared_as(
    result: Result<PreparedRequest, ApiError>,
    expected: Result<RequestView, ApiErrorView>,
) -> bool {
    match (result, expected) {
        (Ok(request), Ok(view)) => request@ == view,
        (Err(error), Err(view)) => error@ == view,
        _ => false,
    }
}

/// The absolute address that `url` stands for.
pub fn resolve_url(url: &str) -> (address: String)
    ensures
        address@ == absolute_url(url@),
{
    if starts_with(url, ABSOLUTE_PREFIX) {
        String::from_str(url)
    } else {
        String::from_str(API_BASE).concat(url)
    }
}

/// The value of the `Authorization` header for the credential `token`, or
/// the failure where the credential cannot be a header's value.
pub fn authorization_value(token: &str) -> (r: Result<String, ApiError>)
    ensures
        match r {
            Ok(value) => header_text_ok(authorization_text(token@)) && value@
                == authorization_text(token@),
            Err(error) => !header_text_ok(authorization_text(token@)) && error@
                == ApiErrorView::InvalidHeader,
        },
{
    let value = String::from_str(AUTHORIZATION_SCHEME).concat(token);
    match HeaderValue::from_str(value.as_str()) {
        Ok(_) => Ok(value),
        Err(_) => Err(ApiError::InvalidHeader),
    }
}

/// A client of the API: it holds the credential, if one is configured.
pub struct GitHubApi {
    token: Option<String>,
}

impl GitHubApi {
    /// The credential of this client, if it has one.
    pub closed spec fn token(&self) -> Option<Seq<char>> {
        match self.token {
            Some(token) => Some(token@),
            None => None,
        }
    }

    /// A client with the credential `token`, or without one.
    pub fn new(token: Option<String>) -> (api: GitHubApi)
        ensures
            api.token() == match token {
                Some(token) => Some(token@),
                None => None::<Seq<char>>,
            },
    {
        GitHubApi { token }
    }

    /// Fails where this client has no credential.
    pub fn require_auth(&self) -> (r: Result<(), ApiError>)
        ensures
            match r {
                Ok(_) => self.token() is Some,
                Err(error) => self.token() is None && error@ == ApiErrorView::MissingToken,
            },
    {
        if self.token.is_none() {
            return Err(ApiError::MissingToken);
        }
        Ok(())
    }

    /// Prepares a request with the method `method` to `url`, an absolute
    /// address or a path below the base address. The request carries the
    /// credential where this client has one, whether or not `require_auth`
    /// asks for it.
    pub fn prepare(&self, require_auth: bool, method: Method, url: &str) -> (r: Result<
        PreparedRequest,
        ApiError,
    >)
        ensures
            prepared_as(r, prepared(self.token(), require_auth, method, url@)),
            require_auth && self.token() is None ==> r is Err && r->Err_0@
                == ApiErrorView::MissingToken,
    {
        let url = resolve_url(url);
        if require_auth {
            match self.require_auth() {
                Ok(_) => {},
                Err(error) => {
                    return Err(error);
                },
            }
        }
        let authorization = match &self.token {
            Some(token) => match authorization_value(token.as_str()) {
                Ok(value) => Some(value),
                Err(error) => {
                    return Err(error);
                },
            },
            None => None,
        };
        Ok(PreparedRequest { method, url, authorization })
    }
}

} // verus!
