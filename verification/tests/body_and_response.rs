use signoz_cli::body::{
    build_body, classify_body_input, resolve_body_payload, resolve_raw_body, BodyDirective,
    BodyInput,
};
use signoz_cli::catalogue::RequestBodyDef;
use signoz_cli::errors::CliError;
use signoz_cli::response::{
    decode_body, ensure_api_response, is_api_path, is_html_response, should_retry_v1, Body,
    HttpResponse,
};

fn body_def(required: bool, content_type: &str) -> RequestBodyDef {
    RequestBodyDef {
        required,
        content_type: content_type.to_string(),
        schema_type: "object".to_string(),
    }
}

fn response_with(status: u16, content_type: &str, body: Body) -> HttpResponse {
    HttpResponse { status, headers: vec![], body, content_type: content_type.to_string() }
}

#[test]
fn body_input_classified_by_prefix() {
    assert_eq!(classify_body_input("@-"), BodyInput::StdinInput);
    assert_eq!(classify_body_input("-"), BodyInput::StdinInput);
    assert_eq!(classify_body_input("@payload.json"), BodyInput::FileInput("payload.json".to_string()));
    assert_eq!(classify_body_input("{\"a\":1}"), BodyInput::LiteralInput("{\"a\":1}".to_string()));
}

#[test]
fn json_body_argument_parses_to_structured_payload() {
    let def = Some(body_def(true, "application/json"));
    let arg = "{\"a\":1}".to_string();
    let directive = build_body(&def, Some(&arg)).unwrap();
    let (raw, ct) = match directive {
        BodyDirective::ReadBody(raw, ct) => (raw, ct),
        other => panic!("expected a body to read, got {:?}", other),
    };
    assert_eq!(ct, "application/json");
    assert_eq!(classify_body_input(&raw), BodyInput::LiteralInput("{\"a\":1}".to_string()));
    let payload = resolve_body_payload(&ct, raw).unwrap();
    match payload {
        Body::Json(v) => {
            let expected: serde_json::Value = serde_json::from_str("{\"a\":1}").unwrap();
            assert_eq!(v, expected);
        },
        Body::Text(t) => panic!("expected structured JSON, got text {:?}", t),
    }
}

#[test]
fn stdin_body_with_non_json_content_type_stays_literal_text() {
    let def = Some(body_def(true, "text/plain"));
    let arg = "@-".to_string();
    let directive = build_body(&def, Some(&arg)).unwrap();
    let (raw, ct) = match directive {
        BodyDirective::ReadBody(raw, ct) => (raw, ct),
        other => panic!("expected a body to read, got {:?}", other),
    };
    assert_eq!(classify_body_input(&raw), BodyInput::StdinInput);
    // The driver reads standard input; here it read the text `hello`.
    let payload = resolve_body_payload(&ct, "hello".to_string()).unwrap();
    match payload {
        Body::Text(t) => assert_eq!(t, "hello"),
        Body::Json(v) => panic!("expected literal text, got JSON {:?}", v),
    }
}

#[test]
fn missing_required_body_fails() {
    let def = Some(body_def(true, "application/json"));
    assert_eq!(build_body(&def, None), Err(CliError::MissingRequiredBody));
}

#[test]
fn missing_optional_body_still_carries_content_type() {
    let def = Some(body_def(false, "application/json"));
    assert_eq!(
        build_body(&def, None),
        Ok(BodyDirective::DeclaredOnly("application/json".to_string()))
    );
    assert_eq!(build_body(&None, None), Ok(BodyDirective::NoBody));
}

#[test]
fn malformed_json_body_fails_closed() {
    let r = resolve_body_payload("application/json", "{not json".to_string());
    assert_eq!(r.unwrap_err(), CliError::InvalidJsonBody);
}

#[test]
fn raw_body_sniffs_json_only_without_content_type() {
    let (b, ct) = resolve_raw_body("{\"a\":1}".to_string(), None);
    assert!(matches!(b, Body::Json(_)));
    assert_eq!(ct, Some("application/json".to_string()));

    let (b, ct) = resolve_raw_body("{\"a\":1}".to_string(), Some("text/plain".to_string()));
    assert!(matches!(b, Body::Text(_)));
    assert_eq!(ct, Some("text/plain".to_string()));

    let (b, ct) = resolve_raw_body("plain words".to_string(), None);
    assert!(matches!(b, Body::Text(_)));
    assert_eq!(ct, None);
}

#[test]
fn html_detected_by_content_type_or_body_prefix() {
    let by_type = response_with(200, "text/html", Body::Text("anything".to_string()));
    assert!(is_html_response(&by_type));
    let by_doctype = response_with(
        200,
        "application/json",
        Body::Text("  <!DOCTYPE HTML><html>".to_string()),
    );
    assert!(is_html_response(&by_doctype));
    let by_tag = response_with(200, "text/plain", Body::Text("\n<HTML lang=x>".to_string()));
    assert!(is_html_response(&by_tag));
    let plain = response_with(200, "application/json", Body::Text("{\"a\":1}".to_string()));
    assert!(!is_html_response(&plain));
}

#[test]
fn api_paths_recognized() {
    assert!(is_api_path("/api/orders"));
    assert!(is_api_path("https://host.example/api/v1/x"));
    assert!(is_api_path("http://host.example/api/"));
    assert!(!is_api_path("/health"));
    assert!(!is_api_path("ftp://host/api/"));
}

#[test]
fn html_on_api_path_is_a_configuration_error_regardless_of_status() {
    let html = response_with(200, "text/html", Body::Text("<html>".to_string()));
    let r = ensure_api_response("/api/orders", &html);
    assert_eq!(r, Err(CliError::HtmlResponse { path: "/api/orders".to_string() }));
    // The identical response on a non-API path is fine.
    let html2 = response_with(200, "text/html", Body::Text("<html>".to_string()));
    assert_eq!(ensure_api_response("/status", &html2), Ok(()));
}

#[test]
fn retry_v1_only_for_v2_paths_with_html() {
    let html = response_with(200, "text/html", Body::Text("<html>".to_string()));
    assert!(should_retry_v1("/api/v2/x", &html));
    assert!(!should_retry_v1("/api/v1/x", &html));
    let plain = response_with(200, "application/json", Body::Text("{}".to_string()));
    assert!(!should_retry_v1("/api/v2/x", &plain));
}

#[test]
fn decode_body_unwraps_json_strings_and_falls_back_on_bad_json() {
    // A JSON string document decodes to its inner text.
    let b = decode_body("application/json", "\"<html>hi\"".to_string());
    match b {
        Body::Text(t) => assert_eq!(t, "<html>hi"),
        Body::Json(v) => panic!("expected unwrapped text, got {:?}", v),
    }
    // Unparseable text under a JSON content type falls back to itself.
    let b = decode_body("application/json", "not json".to_string());
    match b {
        Body::Text(t) => assert_eq!(t, "not json"),
        Body::Json(v) => panic!("expected fallback text, got {:?}", v),
    }
    // A structured document stays structured.
    let b = decode_body("application/json; charset=utf-8", "{\"a\":1}".to_string());
    assert!(matches!(b, Body::Json(_)));
    // A non-JSON content type carries the text opaquely.
    let b = decode_body("text/plain", "{\"a\":1}".to_string());
    assert!(matches!(b, Body::Text(_)));
}
