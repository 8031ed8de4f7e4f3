use signoz_cli::errors::CliError;
use signoz_cli::urlio::{build_url, join_base_path};

#[test]
fn join_strips_trailing_slashes_and_adds_leading_one() {
    assert_eq!(join_base_path("http://h///", "/api/v1/x"), "http://h/api/v1/x");
    assert_eq!(join_base_path("http://h", "api/v1/x"), "http://h/api/v1/x");
    assert_eq!(join_base_path("http://h/", "/x"), "http://h/x");
}

#[test]
fn build_url_appends_encoded_query_pairs() {
    let query = vec![
        ("k".to_string(), "a b".to_string()),
        ("k".to_string(), "c".to_string()),
    ];
    let url = build_url("http://host.example/", "/api/v1/x", &query).unwrap();
    assert_eq!(url.as_str(), "http://host.example/api/v1/x?k=a+b&k=c");
}

#[test]
fn build_url_without_query_leaves_url_bare() {
    let url = build_url("http://host.example", "api/v1/x", &vec![]).unwrap();
    assert_eq!(url.as_str(), "http://host.example/api/v1/x");
}

#[test]
fn build_url_merges_into_an_existing_query() {
    let query = vec![("k".to_string(), "v".to_string())];
    let url = build_url("http://h", "/x?a=1", &query).unwrap();
    assert_eq!(url, "http://h/x?a=1&k=v");
}

#[test]
fn build_url_fills_a_bare_trailing_question_mark() {
    let query = vec![("k".to_string(), "v".to_string())];
    let url = build_url("http://h", "/x?", &query).unwrap();
    assert_eq!(url, "http://h/x?k=v");
}

#[test]
fn invalid_base_url_is_rejected() {
    let r = build_url("not a url", "/x", &vec![]);
    assert_eq!(r.unwrap_err(), CliError::InvalidUrl);
}
