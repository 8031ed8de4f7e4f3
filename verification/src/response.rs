//! The response model: a decoded body, the HTML-page heuristic, the
//! API-path test, the version-fallback trigger and the final sanity
//! check on a completed response.

use vstd::prelude::*;

use crate::errors::CliError;
use crate::jsonio::{json_ok, json_text_of, parse_json, parse_json_text};
use crate::text::{
    contains_sub, occurs, spec_starts_with, spec_starts_with_ignore_case, spec_trim_start,
    starts_with, starts_with_ignore_case, trim_start,
};

verus! {

/// A request or response payload: structured JSON, or opaque text.
#[derive(Debug)]
pub enum Body {
    Json(serde_json::Value),
    Text(String),
}

/// One completed HTTP response, as the transport hands it back: status,
/// headers, decoded body and the (lower-cased) content type.
#[derive(Debug)]
pub struct HttpResponse {
    pub status: u16,
    pub headers: Vec<(String, String)>,
    pub body: Body,
    pub content_type: String,
}

/// Text that reads as an HTML page: after leading whitespace it begins,
/// ASCII-case-insensitively, with `<!doctype html` or `<html`.
pub open spec fn spec_is_html_text(s: Seq<char>) -> bool {
    spec_starts_with_ignore_case(spec_trim_start(s), "<!doctype html"@)
        || spec_starts_with_ignore_case(spec_trim_start(s), "<html"@)
}

/// A response classified as HTML: by content type, or by the shape of a
/// textual body.
pub open spec fn spec_is_html(r: HttpResponse) -> bool {
    occurs(r.content_type@, "text/html"@) || (r.body matches Body::Text(s)
        && spec_is_html_text(s@))
}

/// A path that addresses the API: it begins with `/api/`, or it is an
/// absolute URL containing `/api/`.
pub open spec fn spec_is_api_path(p: Seq<char>) -> bool {
    spec_starts_with(p, "/api/"@) || ((spec_starts_with(p, "http://"@) || spec_starts_with(
        p,
        "https://"@,
    )) && occurs(p, "/api/"@))
}

/// Whether `text` reads as an HTML page.
pub fn is_html_text(text: &str) -> (r: bool)
    ensures
        r == spec_is_html_text(text@),
{
    let t = trim_start(text);
    starts_with_ignore_case(t, "<!doctype html") || starts_with_ignore_case(t, "<html")
}

/// Classifies a response as HTML, by content type or body prefix. This
/// is the sole heuristic for a UI route answering in place of the API.
pub fn is_html_response(response: &HttpResponse) -> (r: bool)
    ensures
        r == spec_is_html(*response),
{
    if contains_sub(response.content_type.as_str(), "text/html") {
        return true;
    }
    match &response.body {
        Body::Text(s) => is_html_text(s.as_str()),
        Body::Json(_) => false,
    }
}

/// Whether `path` addresses the API.
pub fn is_api_path(path: &str) -> (r: bool)
    ensures
        r == spec_is_api_path(path@),
{
    if starts_with(path, "/api/") {
        return true;
    }
    if starts_with(path, "http://") || starts_with(path, "https://") {
        return contains_sub(path, "/api/");
    }
    false
}

/// Whether a completed response calls for the one version-fallback
/// retry: the path is under `/api/v2/` and the response is HTML.
pub fn should_retry_v1(path: &str, response: &HttpResponse) -> (r: bool)
    ensures
        r == (spec_starts_with(path@, "/api/v2/"@) && spec_is_html(*response)),
{
    if !starts_with(path, "/api/v2/") {
        return false;
    }
    is_html_response(response)
}

/// The path with its leading `/api/v2/` replaced by `/api/v1/`.
pub open spec fn spec_fallback_path(p: Seq<char>) -> Seq<char> {
    "/api/v1/"@ + p.skip("/api/v2/"@.len() as int)
}

/// Rewrites a `/api/v2/` path to its `/api/v1/` counterpart.
pub fn fallback_path(path: &str) -> (r: String)
    requires
        spec_starts_with(path@, "/api/v2/"@),
    ensures
        r@ == spec_fallback_path(path@),
{
    let prefix_len = "/api/v2/".unicode_len();
    let rest = path.substring_char(prefix_len, path.unicode_len());
    "/api/v1/".to_owned().concat(rest)
}

/// The final sanity check: a response to an API path that is still HTML
/// is a configuration error, whatever its status code.
pub fn ensure_api_response(path: &str, response: &HttpResponse) -> (r: Result<(), CliError>)
    ensures
        r is Err <==> spec_is_api_path(path@) && spec_is_html(*response),
        (r matches Err(e) ==> e@ == crate::errors::CliErrorView::HtmlResponse(path@)),
{
    if is_api_path(path) && is_html_response(response) {
        Err(CliError::HtmlResponse { path: path.to_owned() })
    } else {
        Ok(())
    }
}

/// Decodes a raw response body: under a JSON content type the text is
/// parsed, a JSON string document unwraps to its text, any other
/// document stays structured, and unparseable text falls back to
/// itself; any other content type carries the text as it came.
pub fn decode_body(content_type: &str, text: String) -> (r: Body)
    ensures
        !occurs(content_type@, "json"@) ==> (r matches Body::Text(s) && s@ == text@),
        occurs(content_type@, "json"@) && !json_ok(text@) ==> (r matches Body::Text(s) && s@
            == text@),
        occurs(content_type@, "json"@) && json_ok(text@) ==> match json_text_of(text@) {
            Some(t) => (r matches Body::Text(s) && s@ == t),
            None => r is Json,
        },
{
    if !contains_sub(content_type, "json") {
        return Body::Text(text);
    }
    match parse_json_text(text.as_str()) {
        Some(s) => Body::Text(s),
        None => match parse_json(text.as_str()) {
            Ok(v) => Body::Json(v),
            Err(_) => Body::Text(text),
        },
    }
}

} // verus!
