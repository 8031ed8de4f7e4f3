use signoz_cli::auth::{
    bearer_value, credential_headers, first_choice, parse_auth_mode, wants_token_fallback,
    AuthChoice, AuthMode, Credentials,
};
use signoz_cli::errors::CliError;
use signoz_cli::flow::RequestFlow;
use signoz_cli::response::{Body, HttpResponse};

fn creds(api_key: Option<&str>, token: Option<&str>) -> Credentials {
    Credentials {
        api_key: api_key.map(|s| s.to_string()),
        token: token.map(|s| s.to_string()),
    }
}

fn json_response(status: u16) -> HttpResponse {
    HttpResponse {
        status,
        headers: vec![],
        body: Body::Text("{\"ok\":true}".to_string()),
        content_type: "application/json".to_string(),
    }
}

fn html_response(status: u16) -> HttpResponse {
    HttpResponse {
        status,
        headers: vec![],
        body: Body::Text("<!DOCTYPE html><html></html>".to_string()),
        content_type: "text/html".to_string(),
    }
}

#[test]
fn auth_mode_explicit_flag_wins() {
    let key = Some("k".to_string());
    let tok = Some("t".to_string());
    assert_eq!(
        parse_auth_mode(Some(&"api-key".to_string()), None, tok.as_ref()),
        AuthMode::ApiKey
    );
    assert_eq!(parse_auth_mode(Some(&"token".to_string()), key.as_ref(), None), AuthMode::Token);
    assert_eq!(parse_auth_mode(Some(&"auto".to_string()), None, None), AuthMode::Auto);
}

#[test]
fn auth_mode_inferred_from_credentials() {
    let key = Some("k".to_string());
    let tok = Some("t".to_string());
    assert_eq!(parse_auth_mode(None, None, tok.as_ref()), AuthMode::Token);
    assert_eq!(parse_auth_mode(None, key.as_ref(), tok.as_ref()), AuthMode::Auto);
    assert_eq!(parse_auth_mode(None, key.as_ref(), None), AuthMode::Auto);
    assert_eq!(parse_auth_mode(None, None, None), AuthMode::Auto);
}

#[test]
fn bearer_prefix_added_only_when_absent() {
    assert_eq!(bearer_value("abc"), "Bearer abc");
    assert_eq!(bearer_value("Bearer abc"), "Bearer abc");
    assert_eq!(bearer_value("bEaReR abc"), "bEaReR abc");
}

#[test]
fn credential_headers_carry_exactly_one_credential() {
    let c = creds(Some("k"), Some("t"));
    assert_eq!(
        credential_headers(AuthChoice::UseApiKey, &c),
        vec![("signoz-api-key".to_string(), "k".to_string())]
    );
    assert_eq!(
        credential_headers(AuthChoice::UseToken, &c),
        vec![("authorization".to_string(), "Bearer t".to_string())]
    );
    let none = creds(None, None);
    assert!(credential_headers(AuthChoice::UseApiKey, &none).is_empty());
    assert!(credential_headers(AuthChoice::UseToken, &none).is_empty());
}

#[test]
fn explicit_headers_merge_on_top_of_the_credential() {
    let c = creds(Some("k"), None);
    let extra = vec![("x-trace".to_string(), "1".to_string())];
    let headers = signoz_cli::auth::headers_for_call(AuthChoice::UseApiKey, &c, &extra);
    assert_eq!(
        headers,
        vec![
            ("signoz-api-key".to_string(), "k".to_string()),
            ("x-trace".to_string(), "1".to_string()),
        ]
    );
}

#[test]
fn auto_with_key_only_issues_exactly_one_call() {
    let flow = RequestFlow::new(AuthMode::Auto, creds(Some("k"), None), "/x".to_string());
    let first = flow.next_call().unwrap();
    assert_eq!(first.path, "/x");
    assert_eq!(first.choice, AuthChoice::UseApiKey);
    // Even a 403 settles at once: there is no token to fall back to.
    let flow = flow.on_response(json_response(403));
    assert!(flow.next_call().is_none());
    let out = flow.into_result().unwrap();
    assert_eq!(out.status, 403);
}

#[test]
fn auto_with_both_escalates_on_403_to_bearer_only() {
    let c = creds(Some("k"), Some("t"));
    let flow = RequestFlow::new(AuthMode::Auto, c.clone(), "/x".to_string());
    let first = flow.next_call().unwrap();
    assert_eq!(first.choice, AuthChoice::UseApiKey);
    let flow = flow.on_response(json_response(403));
    let second = flow.next_call().expect("a second call is owed after 403");
    assert_eq!(second.path, "/x");
    assert_eq!(second.choice, AuthChoice::UseToken);
    // The second attempt's headers carry only the bearer token.
    let headers = credential_headers(second.choice, &c);
    assert_eq!(headers, vec![("authorization".to_string(), "Bearer t".to_string())]);
    let flow = flow.on_response(json_response(200));
    assert!(flow.next_call().is_none());
    assert_eq!(flow.calls_made, 2);
    let out = flow.into_result().unwrap();
    assert_eq!(out.status, 200);
}

#[test]
fn auto_with_both_does_not_escalate_on_200() {
    let flow = RequestFlow::new(AuthMode::Auto, creds(Some("k"), Some("t")), "/x".to_string());
    let flow = flow.on_response(json_response(200));
    assert!(flow.next_call().is_none());
}

#[test]
fn explicit_modes_issue_exactly_one_call() {
    let c = creds(Some("k"), Some("t"));
    let flow = RequestFlow::new(AuthMode::ApiKey, c.clone(), "/x".to_string());
    assert_eq!(flow.next_call().unwrap().choice, AuthChoice::UseApiKey);
    let flow = flow.on_response(json_response(401));
    assert!(flow.next_call().is_none());

    let flow = RequestFlow::new(AuthMode::Token, c, "/x".to_string());
    assert_eq!(flow.next_call().unwrap().choice, AuthChoice::UseToken);
    let flow = flow.on_response(json_response(403));
    assert!(flow.next_call().is_none());
}

#[test]
fn first_choice_uses_token_when_no_key_in_auto() {
    let c = creds(None, Some("t"));
    assert_eq!(first_choice(AuthMode::Auto, &c), AuthChoice::UseToken);
    assert!(!wants_token_fallback(AuthMode::Auto, &c, 401));
}

#[test]
fn v2_html_response_retries_once_against_v1() {
    let flow = RequestFlow::new(AuthMode::Auto, creds(None, None), "/api/v2/x".to_string());
    let flow = flow.on_response(html_response(200));
    let retry = flow.next_call().expect("an HTML v2 response owes one retry");
    assert_eq!(retry.path, "/api/v1/x");
    // A non-HTML retry response becomes the final result.
    let flow = flow.on_response(json_response(200));
    assert!(flow.next_call().is_none());
    let out = flow.into_result().unwrap();
    assert_eq!(out.status, 200);
}

#[test]
fn v2_html_retry_still_html_keeps_v2_and_fails_sanity_check() {
    let flow = RequestFlow::new(AuthMode::Auto, creds(None, None), "/api/v2/x".to_string());
    let flow = flow.on_response(html_response(202));
    let retry = flow.next_call().unwrap();
    assert_eq!(retry.path, "/api/v1/x");
    let flow = flow.on_response(html_response(200));
    assert!(flow.next_call().is_none());
    // The original v2 response stays final, and the sanity check fails.
    let r = flow.into_result();
    match r {
        Err(e) => assert_eq!(e, CliError::HtmlResponse { path: "/api/v2/x".to_string() }),
        Ok(resp) => panic!("expected a configuration error, got status {}", resp.status),
    }
}

#[test]
fn non_v2_path_never_version_retries() {
    let flow = RequestFlow::new(AuthMode::Auto, creds(None, None), "/api/v1/x".to_string());
    let flow = flow.on_response(html_response(200));
    assert!(flow.next_call().is_none());
}

#[test]
fn worst_case_four_calls() {
    let c = creds(Some("k"), Some("t"));
    let flow = RequestFlow::new(AuthMode::Auto, c, "/api/v2/x".to_string());
    let flow = flow.on_response(html_response(401)); // key attempt
    assert_eq!(flow.next_call().unwrap().choice, AuthChoice::UseToken);
    let flow = flow.on_response(html_response(200)); // token attempt, HTML
    let retry = flow.next_call().unwrap();
    assert_eq!(retry.path, "/api/v1/x");
    assert_eq!(retry.choice, AuthChoice::UseApiKey);
    let flow = flow.on_response(html_response(403)); // v1 key attempt
    assert_eq!(flow.next_call().unwrap().choice, AuthChoice::UseToken);
    let flow = flow.on_response(json_response(200)); // v1 token attempt
    assert!(flow.next_call().is_none());
    assert_eq!(flow.calls_made, 4);
    let out = flow.into_result().unwrap();
    assert_eq!(out.status, 200);
}
