//! GraphQL queries: the call that carries one, and the envelope that
//! answers it.

use vstd::prelude::*;
use crate::error::{ApiError, ApiErrorView};
use crate::reply::{outcome_as, reply_outcome, Reply};
use crate::request::{
    prepared,
    GitHubApi,
    Method,
    PreparedRequest,
    ABSOLUTE_PREFIX,
    API_BASE,
};

verus! {

/// The path of the GraphQL endpoint below the base address.
pub const GRAPHQL_PATH: &'static str = "graphql";

/// One error of a GraphQL answer.
#[derive(Debug, PartialEq, Eq)]
pub struct GraphError {
    /// What the platform says went wrong.
    pub message: String,
}

/// The envelope of a GraphQL answer.
#[derive(Debug, PartialEq, Eq)]
pub struct GraphResult<T> {
    /// The result of the query, where the answer has one.
    pub data: Option<T>,
    /// The errors of the answer, in the order in which they came; empty
    /// where the answer names none.
    pub errors: Vec<GraphError>,
}

/// A GraphQL query that is ready to be sent: the request, and the two parts
/// of its body.
#[derive(Debug, PartialEq, Eq)]
pub struct GraphCall<V> {
    /// The request that carries the query.
    pub request: PreparedRequest,
    /// The text of the query.
    pub query: String,
    /// The variables of the query.
    pub variables: V,
}

/// What an envelope amounts to: the first error where it has errors,
/// whatever its data; else its data; else the failure for missing data.
pub open spec fn resolved<T>(result: GraphResult<T>) -> Result<T, ApiErrorView> {
    if result.errors@.len() > 0 {
        Err(ApiErrorView::GraphQl(result.errors@[0].message@))
    } else {
        match result.data {
            Some(data) => Ok(data),
            None => Err(ApiErrorView::MissingData),
        }
    }
}

/// What the reply to a GraphQL query amounts to: the failure of the reply
/// itself, or else what its envelope amounts to.
pub open spec fn graphql_outcome<T>(reply: Reply<GraphResult<T>>) -> Result<T, ApiErrorView> {
    match reply_outcome(reply) {
        Ok(result) => resolved(result),
        Err(error) => Err(error),
    }
}

impl<T> GraphResult<T> {
    /// The data of this envelope, or the failure that it reports. Errors
    /// come before data: where the envelope has both, the first error is
    /// reported and the data is dropped.
    pub fn resolve(self) -> (r: Result<T, ApiError>)
        ensures
            outcome_as(r, resolved(self)),
            self.errors@.len() > 0 ==> r is Err && r->Err_0@ == ApiErrorView::GraphQl(
                self.errors@[0].message@,
            ),
            self.errors@.len() == 0 && self.data is None ==> r is Err && r->Err_0@
                == ApiErrorView::MissingData,
            self.errors@.len() == 0 && self.data is Some ==> r == Ok::<T, ApiError>(
                self.data->Some_0,
            ),
    {
        if self.errors.len() > 0 {
            Err(ApiError::GraphQl(self.errors[0].message.clone()))
        } else {
            match self.data {
                Some(data) => Ok(data),
                None => Err(ApiError::MissingData),
            }
        }
    }
}

/// The result of a GraphQL query, from the reply to it.
pub fn graphql_result<T>(reply: Reply<GraphResult<T>>) -> (r: Result<T, ApiError>)
    ensures
        outcome_as(r, graphql_outcome(reply)),
{
    match reply.into_result() {
        Ok(result) => result.resolve(),
        Err(error) => Err(error),
    }
}

impl GitHubApi {
    /// Prepares the GraphQL query `query` with the variables `variables`: a
    /// `POST` to the GraphQL endpoint, which needs the credential.
    pub fn graphql<V>(&self, query: &str, variables: V) -> (r: Result<GraphCall<V>, ApiError>)
        ensures
            match (r, prepared(self.token(), true, Method::Post, GRAPHQL_PATH@)) {
                (Ok(call), Ok(request)) => call.request@ == request && call.query@ == query@
                    && call.variables == variables,
                (Err(error), Err(wanted)) => error@ == wanted,
                _ => false,
            },
            self.token() is None ==> r is Err && r->Err_0@ == ApiErrorView::MissingToken,
            r is Ok ==> r->Ok_0.request.method == Method::Post && r->Ok_0.request.url@ == API_BASE@
                + GRAPHQL_PATH@,
    {
        proof {
            reveal_strlit("graphql");
            reveal_strlit("https://");
            assert(!ABSOLUTE_PREFIX@.is_prefix_of(GRAPHQL_PATH@)) by {
                assert(GRAPHQL_PATH@[0] == 'g');
                assert(ABSOLUTE_PREFIX@[0] == 'h');
            }
        }
        match self.prepare(true, Method::Post, GRAPHQL_PATH) {
            Ok(request) => Ok(GraphCall { request, query: String::from_str(query), variables }),
            Err(error) => Err(error),
        }
    }
}

} // verus!
