use signoz_cli::args::{parse_header_args, parse_kv_args, split_header, ArgValues};
use signoz_cli::binder::build_request_parts;
use signoz_cli::catalogue::{CommandTree, Operation, ParamDef, Resource};
use signoz_cli::catalogue::find_op;
use signoz_cli::errors::CliError;

fn param(name: &str, location: &str, required: bool, is_array: bool) -> ParamDef {
    ParamDef {
        param_name: name.to_string(),
        name: name.to_string(),
        flag: name.to_string(),
        location: location.to_string(),
        required,
        schema_type: "string".to_string(),
        is_array,
    }
}

fn op_with(path: &str, params: Vec<ParamDef>) -> Operation {
    Operation {
        name: "get".to_string(),
        method: "GET".to_string(),
        path: path.to_string(),
        summary: None,
        description: None,
        tags: vec![],
        deprecated: false,
        params,
        request_body: None,
    }
}

fn args_of(entries: Vec<(&str, Vec<&str>)>) -> ArgValues {
    ArgValues {
        entries: entries
            .into_iter()
            .map(|(k, vs)| (k.to_string(), vs.into_iter().map(|v| v.to_string()).collect()))
            .collect(),
    }
}

#[test]
fn missing_required_param_fails_before_any_request() {
    let op = op_with("/api/v1/things/{id}", vec![param("id", "path", true, false)]);
    let args = args_of(vec![]);
    let r = build_request_parts(&op, &args);
    assert_eq!(r, Err(CliError::MissingRequiredParam { flag: "id".to_string() }));
}

#[test]
fn unsupplied_optional_path_param_is_still_a_binder_error() {
    // A placeholder must never survive into the sent path, so even an
    // optional path parameter needs a value.
    let op = op_with("/api/v1/things/{id}", vec![param("id", "path", false, false)]);
    let args = args_of(vec![]);
    let r = build_request_parts(&op, &args);
    assert_eq!(r, Err(CliError::MissingPathValue { flag: "id".to_string() }));
}

#[test]
fn optional_missing_param_contributes_nothing() {
    let op = op_with("/api/v1/things", vec![param("limit", "query", false, false)]);
    let args = args_of(vec![]);
    let (path, query, headers) = build_request_parts(&op, &args).unwrap();
    assert_eq!(path, "/api/v1/things");
    assert!(query.is_empty());
    assert!(headers.is_empty());
}

#[test]
fn path_substitution_replaces_every_occurrence_and_encodes_value() {
    let op = op_with(
        "/api/v1/{id}/copy/{id}/x",
        vec![param("id", "path", true, false)],
    );
    let args = args_of(vec![("id", vec!["a b/c"])]);
    let (path, _, _) = build_request_parts(&op, &args).unwrap();
    assert_eq!(path, "/api/v1/a%20b%2Fc/copy/a%20b%2Fc/x");
}

#[test]
fn path_substitution_leaves_surrounding_path_alone() {
    let op = op_with("/api{x}/{id} {id}", vec![param("id", "path", true, false)]);
    let args = args_of(vec![("id", vec!["v"])]);
    let (path, _, _) = build_request_parts(&op, &args).unwrap();
    assert_eq!(path, "/api{x}/v v");
}

#[test]
fn array_json_literal_and_repeated_flags_expand_identically() {
    let op1 = op_with("/api/v1/q", vec![param("k", "query", false, true)]);
    let args_literal = args_of(vec![("k", vec![r#"["a","b"]"#])]);
    let args_repeated = args_of(vec![("k", vec!["a", "b"])]);
    let (_, q1, _) = build_request_parts(&op1, &args_literal).unwrap();
    let (_, q2, _) = build_request_parts(&op1, &args_repeated).unwrap();
    let expected = vec![
        ("k".to_string(), "a".to_string()),
        ("k".to_string(), "b".to_string()),
    ];
    assert_eq!(q1, expected);
    assert_eq!(q2, expected);
}

#[test]
fn array_literal_flattens_numbers_and_booleans() {
    let op = op_with("/api/v1/q", vec![param("k", "query", false, true)]);
    let args = args_of(vec![("k", vec![r#"[1, true, "x"]"#])]);
    let (_, q, _) = build_request_parts(&op, &args).unwrap();
    let expected = vec![
        ("k".to_string(), "1".to_string()),
        ("k".to_string(), "true".to_string()),
        ("k".to_string(), "x".to_string()),
    ];
    assert_eq!(q, expected);
}

#[test]
fn malformed_array_literal_is_an_input_error() {
    let op = op_with("/api/v1/q", vec![param("k", "query", false, true)]);
    let args = args_of(vec![("k", vec!["[1, "])]);
    let r = build_request_parts(&op, &args);
    assert_eq!(r, Err(CliError::InvalidJsonList));
}

#[test]
fn non_array_literal_on_json_scalar_is_an_input_error() {
    // A JSON document that is not an array also fails the flattening.
    let op = op_with("/api/v1/q", vec![param("k", "query", false, true)]);
    let args = args_of(vec![("k", vec!["[3]x"])]);
    let r = build_request_parts(&op, &args);
    assert_eq!(r, Err(CliError::InvalidJsonList));
}

#[test]
fn header_params_expand_in_order() {
    let op = op_with(
        "/api/v1/q",
        vec![param("h", "header", false, true), param("q", "query", false, false)],
    );
    let args = args_of(vec![("h", vec!["one", "two"]), ("q", vec!["z"])]);
    let (_, query, headers) = build_request_parts(&op, &args).unwrap();
    assert_eq!(
        headers,
        vec![("h".to_string(), "one".to_string()), ("h".to_string(), "two".to_string())]
    );
    assert_eq!(query, vec![("q".to_string(), "z".to_string())]);
}

#[test]
fn unknown_location_is_inert() {
    let op = op_with("/api/v1/q", vec![param("c", "cookie", true, false)]);
    let args = args_of(vec![("c", vec!["v"])]);
    let (path, query, headers) = build_request_parts(&op, &args).unwrap();
    assert_eq!(path, "/api/v1/q");
    assert!(query.is_empty());
    assert!(headers.is_empty());
}

#[test]
fn split_header_prefers_colon_and_trims() {
    assert_eq!(split_header("a: b"), Some(("a", "b")));
    assert_eq!(split_header(" x = y "), Some(("x", "y")));
    assert_eq!(split_header("k:v=w"), Some(("k", "v=w")));
    assert_eq!(split_header("nope"), None);
}

#[test]
fn parse_header_args_skips_invalid_entries() {
    let raw = vec!["a:1".to_string(), "bad".to_string(), "b=2".to_string()];
    let parsed = parse_header_args(&raw);
    assert_eq!(
        parsed,
        vec![("a".to_string(), "1".to_string()), ("b".to_string(), "2".to_string())]
    );
}

#[test]
fn parse_kv_args_rejects_invalid_entries() {
    let raw = vec!["a:1".to_string(), "bad".to_string()];
    let r = parse_kv_args(&raw);
    assert_eq!(r, Err(CliError::InvalidQueryArg { raw: "bad".to_string() }));
    let ok = parse_kv_args(&vec!["a=1".to_string()]).unwrap();
    assert_eq!(ok, vec![("a".to_string(), "1".to_string())]);
}

#[test]
fn find_op_walks_the_tree() {
    let op = op_with("/api/v1/things", vec![]);
    let tree = CommandTree {
        version: 1,
        base_url: "http://localhost:8080".to_string(),
        resources: vec![Resource { name: "things".to_string(), ops: vec![op] }],
    };
    let found = find_op(&tree, "things", "get").expect("operation should be found");
    assert_eq!(found.path, "/api/v1/things");
    assert!(find_op(&tree, "things", "delete").is_none());
    assert!(find_op(&tree, "nothing", "get").is_none());
}

#[test]
fn error_messages_name_the_flag() {
    let e = CliError::MissingRequiredParam { flag: "id".to_string() };
    assert_eq!(e.message(), "missing required argument --id");
    let h = CliError::HtmlResponse { path: "/api/orders".to_string() };
    assert_eq!(
        h.message(),
        "html response for /api/orders. base url likely points to UI/marketing or auth is missing"
    );
}
