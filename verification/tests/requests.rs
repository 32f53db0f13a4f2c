use github_api::error::ApiError;
use github_api::request::{
    authorization_value, resolve_url, GitHubApi, Method, PreparedRequest, API_BASE,
};

fn with_token(token: &str) -> GitHubApi {
    GitHubApi::new(Some(String::from(token)))
}

#[test]
fn relative_path_is_resolved_against_the_base() {
    assert_eq!(API_BASE, "https://api.github.com/");
    assert_eq!(resolve_url("graphql"), "https://api.github.com/graphql");
    assert_eq!(resolve_url("users/octocat"), "https://api.github.com/users/octocat");
    assert_eq!(resolve_url(""), "https://api.github.com/");
}

#[test]
fn absolute_address_is_used_verbatim() {
    assert_eq!(resolve_url("https://example.com/x?y=1"), "https://example.com/x?y=1");
    assert_eq!(resolve_url("https://"), "https://");
}

#[test]
fn insecure_address_is_taken_as_a_path() {
    assert_eq!(resolve_url("http://example.com"), "https://api.github.com/http://example.com");
}

#[test]
fn authorization_value_has_the_scheme() {
    assert_eq!(authorization_value("abc123"), Ok(String::from("token abc123")));
    assert_eq!(authorization_value(""), Ok(String::from("token ")));
}

#[test]
fn authorization_value_accepts_tab_and_high_bytes() {
    assert_eq!(authorization_value("a\tb"), Ok(String::from("token a\tb")));
    assert_eq!(authorization_value("cl\u{e9}"), Ok(String::from("token cl\u{e9}")));
    assert_eq!(authorization_value("~ "), Ok(String::from("token ~ ")));
}

#[test]
fn authorization_value_refuses_control_characters() {
    assert_eq!(authorization_value("a\nb"), Err(ApiError::InvalidHeader));
    assert_eq!(authorization_value("a\rb"), Err(ApiError::InvalidHeader));
    assert_eq!(authorization_value("\u{0}"), Err(ApiError::InvalidHeader));
    assert_eq!(authorization_value("a\u{1f}"), Err(ApiError::InvalidHeader));
    assert_eq!(authorization_value("a\u{7f}"), Err(ApiError::InvalidHeader));
}

#[test]
fn require_auth_passes_with_a_credential() {
    assert_eq!(with_token("secret").require_auth(), Ok(()));
}

#[test]
fn require_auth_fails_without_a_credential() {
    assert_eq!(GitHubApi::new(None).require_auth(), Err(ApiError::MissingToken));
}

#[test]
fn prepare_without_credential_and_without_need() {
    let request = GitHubApi::new(None).prepare(false, Method::Get, "users/octocat");
    assert_eq!(
        request,
        Ok(PreparedRequest {
            method: Method::Get,
            url: String::from("https://api.github.com/users/octocat"),
            authorization: None,
        })
    );
}

#[test]
fn prepare_fails_where_the_credential_is_required_and_missing() {
    let api = GitHubApi::new(None);
    assert_eq!(api.prepare(true, Method::Post, "graphql"), Err(ApiError::MissingToken));
    assert_eq!(api.prepare(true, Method::Get, "https://example.com"), Err(ApiError::MissingToken));
}

#[test]
fn prepare_attaches_the_credential_when_required() {
    let request = with_token("secret").prepare(true, Method::Post, "graphql");
    assert_eq!(
        request,
        Ok(PreparedRequest {
            method: Method::Post,
            url: String::from("https://api.github.com/graphql"),
            authorization: Some(String::from("token secret")),
        })
    );
}

#[test]
fn prepare_attaches_the_credential_when_not_required() {
    let request = with_token("secret").prepare(false, Method::Get, "https://example.com/a");
    assert_eq!(
        request,
        Ok(PreparedRequest {
            method: Method::Get,
            url: String::from("https://example.com/a"),
            authorization: Some(String::from("token secret")),
        })
    );
}

#[test]
fn prepare_fails_cleanly_on_an_unusable_credential() {
    let api = with_token("bad\ntoken");
    assert_eq!(api.prepare(true, Method::Post, "graphql"), Err(ApiError::InvalidHeader));
    assert_eq!(api.prepare(false, Method::Get, "users/x"), Err(ApiError::InvalidHeader));
}

#[test]
fn prepare_keeps_the_method() {
    let api = GitHubApi::new(None);
    for method in [
        Method::Get,
        Method::Post,
        Method::Put,
        Method::Delete,
        Method::Head,
        Method::Options,
        Method::Connect,
        Method::Patch,
        Method::Trace,
    ] {
        let request = api.prepare(false, method, "x").unwrap();
        assert_eq!(request.method, method);
    }
}

#[test]
fn client_is_reusable() {
    let api = with_token("t");
    let first = api.prepare(true, Method::Get, "a");
    let second = api.prepare(true, Method::Get, "a");
    assert_eq!(first, second);
}
