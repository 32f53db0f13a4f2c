use github_api::error::{ApiError, TOKEN_VAR};
use github_api::graphql::{graphql_result, GraphCall, GraphError, GraphResult, GRAPHQL_PATH};
use github_api::reply::{status_is_error, Reply};
use github_api::request::{GitHubApi, Method, PreparedRequest};
use github_api::user::User;

fn error(message: &str) -> GraphError {
    GraphError { message: String::from(message) }
}

fn answered<T>(status: u16, data: Option<T>, errors: Vec<GraphError>) -> Reply<GraphResult<T>> {
    Reply::Response { status, body: Ok(GraphResult { data, errors }) }
}

#[test]
fn first_error_wins_over_later_errors() {
    let result: GraphResult<u32> =
        GraphResult { data: None, errors: vec![error("first"), error("second"), error("third")] };
    assert_eq!(result.resolve(), Err(ApiError::GraphQl(String::from("first"))));
}

#[test]
fn first_error_wins_over_data() {
    let result = GraphResult { data: Some(5u32), errors: vec![error("boom")] };
    let failure = result.resolve().unwrap_err();
    assert_eq!(failure, ApiError::GraphQl(String::from("boom")));
    assert_eq!(failure.message(), "graphql error: boom");
}

#[test]
fn single_error_is_reported() {
    let result: GraphResult<u32> = GraphResult { data: None, errors: vec![error("")] };
    assert_eq!(result.resolve(), Err(ApiError::GraphQl(String::new())));
}

#[test]
fn data_is_returned_without_errors() {
    let result = GraphResult { data: Some(String::from("payload")), errors: vec![] };
    assert_eq!(result.resolve(), Ok(String::from("payload")));
}

#[test]
fn missing_data_without_errors_is_a_failure() {
    let result: GraphResult<u32> = GraphResult { data: None, errors: vec![] };
    let failure = result.resolve().unwrap_err();
    assert_eq!(failure, ApiError::MissingData);
    assert_eq!(failure.message(), "missing graphql data");
}

#[test]
fn graphql_call_needs_the_credential() {
    let api = GitHubApi::new(None);
    assert_eq!(api.graphql("query { viewer { login } }", 0u8), Err(ApiError::MissingToken));
}

#[test]
fn graphql_call_posts_to_the_endpoint() {
    let api = GitHubApi::new(Some(String::from("secret")));
    let call = api.graphql("query { viewer { login } }", vec![1u8, 2]);
    assert_eq!(GRAPHQL_PATH, "graphql");
    assert_eq!(
        call,
        Ok(GraphCall {
            request: PreparedRequest {
                method: Method::Post,
                url: String::from("https://api.github.com/graphql"),
                authorization: Some(String::from("token secret")),
            },
            query: String::from("query { viewer { login } }"),
            variables: vec![1u8, 2],
        })
    );
}

#[test]
fn graphql_call_fails_on_an_unusable_credential() {
    let api = GitHubApi::new(Some(String::from("a\u{7f}")));
    assert_eq!(api.graphql("query", ()), Err(ApiError::InvalidHeader));
}

#[test]
fn graphql_result_of_a_good_answer() {
    assert_eq!(graphql_result(answered(200, Some(7u8), vec![])), Ok(7));
}

#[test]
fn graphql_result_of_an_answer_with_errors() {
    assert_eq!(
        graphql_result(answered(200, Some(7u8), vec![error("a"), error("b")])),
        Err(ApiError::GraphQl(String::from("a")))
    );
}

#[test]
fn graphql_result_of_an_empty_answer() {
    assert_eq!(graphql_result(answered::<u8>(200, None, vec![])), Err(ApiError::MissingData));
}

#[test]
fn error_status_comes_before_the_envelope() {
    assert_eq!(graphql_result(answered(401, Some(7u8), vec![])), Err(ApiError::Status(401)));
    assert_eq!(
        graphql_result(answered::<u8>(502, None, vec![error("a")])),
        Err(ApiError::Status(502))
    );
}

#[test]
fn graphql_result_of_a_lost_request() {
    let reply: Reply<GraphResult<u8>> = Reply::Failed(String::from("connection refused"));
    assert_eq!(graphql_result(reply), Err(ApiError::Transport(String::from("connection refused"))));
}

#[test]
fn graphql_result_of_an_unreadable_body() {
    let reply: Reply<GraphResult<u8>> =
        Reply::Response { status: 200, body: Err(String::from("expected value")) };
    assert_eq!(graphql_result(reply), Err(ApiError::Transport(String::from("expected value"))));
}

#[test]
fn error_statuses_are_the_client_and_server_errors() {
    assert!(!status_is_error(0));
    assert!(!status_is_error(200));
    assert!(!status_is_error(204));
    assert!(!status_is_error(304));
    assert!(!status_is_error(399));
    assert!(status_is_error(400));
    assert!(status_is_error(404));
    assert!(status_is_error(499));
    assert!(status_is_error(500));
    assert!(status_is_error(599));
    assert!(!status_is_error(600));
    assert!(!status_is_error(u16::MAX));
}

#[test]
fn reply_with_error_status_drops_the_body() {
    let reply = Reply::Response { status: 404, body: Ok(1u8) };
    assert_eq!(reply.into_result(), Err(ApiError::Status(404)));
    let reply: Reply<u8> = Reply::Response { status: 500, body: Err(String::from("unread")) };
    assert_eq!(reply.into_result(), Err(ApiError::Status(500)));
}

#[test]
fn reply_with_good_status_gives_the_body() {
    assert_eq!(Reply::Response { status: 200, body: Ok(1u8) }.into_result(), Ok(1));
    assert_eq!(Reply::Response { status: 302, body: Ok(2u8) }.into_result(), Ok(2));
    let reply: Reply<u8> = Reply::Response { status: 200, body: Err(String::from("eof")) };
    assert_eq!(reply.into_result(), Err(ApiError::Transport(String::from("eof"))));
}

#[test]
fn messages_of_the_failures() {
    assert_eq!(TOKEN_VAR, "GITHUB_TOKEN");
    assert_eq!(ApiError::MissingToken.message(), "missing environment variable GITHUB_TOKEN");
    assert_eq!(ApiError::InvalidHeader.message(), "failed to parse header value");
    assert_eq!(ApiError::Status(404).message(), "HTTP status error: 404");
    assert_eq!(ApiError::Status(0).message(), "HTTP status error: 0");
    assert_eq!(ApiError::Transport(String::from("timed out")).message(), "timed out");
    assert_eq!(ApiError::GraphQl(String::from("rate limited")).message(), "graphql error: rate limited");
    assert_eq!(ApiError::MissingData.message(), "missing graphql data");
}

#[test]
fn user_lookup_is_an_unauthenticated_get() {
    let request = GitHubApi::new(None).user("octocat");
    assert_eq!(
        request,
        Ok(PreparedRequest {
            method: Method::Get,
            url: String::from("https://api.github.com/users/octocat"),
            authorization: None,
        })
    );
}

#[test]
fn user_lookup_carries_an_available_credential() {
    let request = GitHubApi::new(Some(String::from("secret"))).user("octocat").unwrap();
    assert_eq!(request.authorization, Some(String::from("token secret")));
    assert_eq!(request.url, "https://api.github.com/users/octocat");
}

#[test]
fn user_lookup_of_an_address_like_login_stays_below_the_base() {
    let request = GitHubApi::new(None).user("https://example.com").unwrap();
    assert_eq!(request.url, "https://api.github.com/users/https://example.com");
}

#[test]
fn user_octocat_is_returned_verbatim() {
    let api = GitHubApi::new(None);
    let request = api.user("octocat").unwrap();
    assert_eq!(request.url, "https://api.github.com/users/octocat");
    let reply = Reply::Response {
        status: 200,
        body: Ok(User {
            id: 1,
            login: String::from("octocat"),
            name: Some(String::from("The Octocat")),
            email: None,
        }),
    };
    let user = reply.into_result().unwrap();
    assert_eq!(user.id, 1);
    assert_eq!(user.login, "octocat");
    assert_eq!(user.name, Some(String::from("The Octocat")));
    assert_eq!(user.email, None);
}

#[test]
fn user_lookup_of_an_unknown_login_fails() {
    let reply: Reply<User> = Reply::Response { status: 404, body: Err(String::from("missing field")) };
    assert_eq!(reply.into_result(), Err(ApiError::Status(404)));
}
