//! Looking up one user by login.

use vstd::prelude::*;
use crate::error::ApiError;
use crate::request::{
    prepared,
    prepared_as,
    GitHubApi,
    Method,
    PreparedRequest,
    ABSOLUTE_PREFIX,
    API_BASE,
};

verus! {

/// The path below which the users are found by login.
pub const USERS_PATH: &'static str = "users/";

/// A user of the platform.
#[derive(Debug, PartialEq, Eq)]
pub struct User {
    /// The numeric identifier.
    pub id: usize,
    /// The login.
    pub login: String,
    /// The display name, where the user gives one.
    pub name: Option<String>,
    /// The e-mail address, where the user shows one.
    pub email: Option<String>,
}

impl GitHubApi {
    /// Prepares the lookup of the user with the login `login`: a `GET` of
    /// the user's path below the base address, which needs no credential
    /// and carries the credential where this client has one.
    pub fn user(&self, login: &str) -> (r: Result<PreparedRequest, ApiError>)
        ensures
            prepared_as(r, prepared(self.token(), false, Method::Get, USERS_PATH@ + login@)),
            r is Ok ==> r->Ok_0.url@ == API_BASE@ + USERS_PATH@ + login@,
    {
        let path = String::from_str(USERS_PATH).concat(login);
        proof {
            reveal_strlit("users/");
            reveal_strlit("https://");
            assert(!ABSOLUTE_PREFIX@.is_prefix_of(path@)) by {
                assert(path@[0] == 'u');
                assert(ABSOLUTE_PREFIX@[0] == 'h');
            }
            assert(API_BASE@ + (USERS_PATH@ + login@) =~= API_BASE@ + USERS_PATH@ + login@);
        }
        self.prepare(false, Method::Get, path.as_str())
    }
}

} // verus!
