//! The request-body resolver: classifies the body argument (inline
//! literal, file reference, or standard input), and turns the text that
//! was read into a typed payload under the declared content type. The
//! reading itself is I/O and happens outside the library.

use vstd::prelude::*;

use crate::errors::CliError;
use crate::jsonio::{json_ok, parse_json};
use crate::response::Body;
use crate::text::{contains_sub, occurs, spec_starts_with, starts_with, str_eq};

verus! {

/// Where a body argument says its payload comes from.
#[derive(Debug, PartialEq, Eq)]
pub enum BodyInput {
    /// `@-` or `-`: read standard input.
    StdinInput,
    /// `@<path>`: read the named file.
    FileInput(String),
    /// Anything else: the argument itself is the payload.
    LiteralInput(String),
}

/// What the body resolver asks the caller to do next.
#[derive(Debug, PartialEq, Eq)]
pub enum BodyDirective {
    /// No body was declared: no payload, no content type.
    NoBody,
    /// A body was declared but none supplied, and it is optional: no
    /// payload, but the declared content type still applies.
    DeclaredOnly(String),
    /// A body argument was supplied: read it as classified, then resolve
    /// the text under the declared content type.
    ReadBody(String, String),
}

/// Classifies a body argument by its prefix: `@-` and `-` read standard
/// input, `@` followed by a path reads that file, anything else is the
/// literal payload. Exactly one form applies.
pub fn classify_body_input(value: &str) -> (r: BodyInput)
    ensures
        (value@ == "@-"@ || value@ == "-"@) ==> r == BodyInput::StdinInput,
        !(value@ == "@-"@ || value@ == "-"@) && spec_starts_with(value@, "@"@) ==> (r matches
            BodyInput::FileInput(p) && p@ == value@.skip(1)),
        !(value@ == "@-"@ || value@ == "-"@) && !spec_starts_with(value@, "@"@) ==> (r matches
            BodyInput::LiteralInput(s) && s@ == value@),
{
    if str_eq(value, "@-") || str_eq(value, "-") {
        return BodyInput::StdinInput;
    }
    if starts_with(value, "@") {
        proof {
            reveal_strlit("@");
        }
        let rest = value.substring_char(1, value.unicode_len());
        return BodyInput::FileInput(rest.to_owned());
    }
    BodyInput::LiteralInput(value.to_owned())
}

/// Resolves the declared body against the supplied argument: nothing
/// when none is declared; an error when a required body is missing; the
/// declared content type alone when an optional body is missing; and
/// otherwise the argument to read, with the declared content type.
pub fn build_body(def: &Option<crate::catalogue::RequestBodyDef>, arg: Option<&String>) -> (r:
    Result<BodyDirective, CliError>)
    ensures
        def is None ==> r == Ok::<BodyDirective, CliError>(BodyDirective::NoBody),
        (def matches Some(d) ==> {
            &&& arg is None && d.required ==> r == Err::<BodyDirective, CliError>(
                CliError::MissingRequiredBody,
            )
            &&& arg is None && !d.required ==> (r matches Ok(BodyDirective::DeclaredOnly(ct))
                && ct@ == d.content_type@)
            &&& (arg matches Some(a) ==> (r matches Ok(BodyDirective::ReadBody(raw, ct)) && (raw@
                == a@ && ct@ == d.content_type@)))
        }),
{
    match def {
        None => Ok(BodyDirective::NoBody),
        Some(d) => match arg {
            None => {
                if d.required {
                    Err(CliError::MissingRequiredBody)
                } else {
                    Ok(BodyDirective::DeclaredOnly(d.content_type.clone()))
                }
            },
            Some(a) => Ok(BodyDirective::ReadBody(a.clone(), d.content_type.clone())),
        },
    }
}

/// Turns body text into a payload under the declared content type: a
/// JSON content type parses the text and fails closed on malformed
/// input; any other content type carries the text opaquely.
pub fn resolve_body_payload(content_type: &str, text: String) -> (r: Result<Body, CliError>)
    ensures
        occurs(content_type@, "json"@) && !json_ok(text@) ==> r == Err::<Body, CliError>(
            CliError::InvalidJsonBody,
        ),
        occurs(content_type@, "json"@) && json_ok(text@) ==> (r matches Ok(b) && b is Json),
        !occurs(content_type@, "json"@) ==> (r matches Ok(Body::Text(s)) && s@ == text@),
{
    if contains_sub(content_type, "json") {
        match parse_json(text.as_str()) {
            Ok(v) => Ok(Body::Json(v)),
            Err(_) => Err(CliError::InvalidJsonBody),
        }
    } else {
        Ok(Body::Text(text))
    }
}

/// Resolves the body of a raw ad-hoc request from the text that was
/// read: an explicit content type carries the text opaquely; without
/// one, text that parses as JSON becomes a structured payload under
/// `application/json`, and anything else stays opaque text with no
/// content type.
pub fn resolve_raw_body(text: String, content_type: Option<String>) -> (r: (Body, Option<String>))
    ensures
        (content_type matches Some(ct) ==> (r.0 matches Body::Text(s) && (s@ == text@ && (
        r.1 matches Some(c) && c@ == ct@)))),
        content_type is None && json_ok(text@) ==> r.0 is Json && (r.1 matches Some(c) && c@
            == "application/json"@),
        content_type is None && !json_ok(text@) ==> (r.0 matches Body::Text(s) && (s@ == text@
            && r.1 is None)),
{
    match content_type {
        Some(ct) => (Body::Text(text), Some(ct)),
        None => match parse_json(text.as_str()) {
            Ok(v) => (Body::Json(v), Some("application/json".to_owned())),
            Err(_) => (Body::Text(text), None),
        },
    }
}

} // verus!
