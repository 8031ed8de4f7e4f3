//! Trusted boundary to serde_json. JSON values are carried opaquely;
//! parsing success, and the flattening of a JSON array literal to
//! strings, are named so contracts can speak about them.

use vstd::prelude::*;

verus! {

#[verifier::external_type_specification]
#[verifier::external_body]
pub struct ExJsonValue(serde_json::Value);

#[verifier::external_type_specification]
#[verifier::external_body]
pub struct ExJsonError(serde_json::Error);

/// Whether serde_json accepts `s` as a JSON document.
pub uninterp spec fn json_ok(s: Seq<char>) -> bool;

/// The elements of `s` parsed as a JSON array, flattened to strings:
/// None when `s` is not a JSON document or not an array; otherwise one
/// string per element, strings taken verbatim and numbers, booleans and
/// composite values rendered as their JSON text.
pub uninterp spec fn json_list_values(s: Seq<char>) -> Option<Seq<Seq<char>>>;

/// Relies on serde_json::from_str::<Value>: parsing is deterministic in
/// the input text, and succeeds exactly on the texts serde_json accepts
/// as one JSON document.
#[verifier::external_body]
pub(crate) fn parse_json(text: &str) -> (r: Result<serde_json::Value, serde_json::Error>)
    ensures
        r is Ok <==> json_ok(text@),
{
    serde_json::from_str(text)
}

/// The text of the document `s` parses to, when that document is a JSON
/// string; None when `s` does not parse, or parses to anything else.
pub uninterp spec fn json_text_of(s: Seq<char>) -> Option<Seq<char>>;

/// Relies on serde_json::from_str::<Value> and Value::as_str: a JSON
/// string document yields its text, deterministically in the input; and
/// a text with a string document is one that from_str accepts.
#[verifier::external_body]
pub(crate) fn parse_json_text(text: &str) -> (r: Option<String>)
    ensures
        r is Some <==> json_text_of(text@) is Some,
        (r matches Some(s) ==> json_text_of(text@) == Some(s@)),
        r is Some ==> json_ok(text@),
{
    let parsed: serde_json::Value = serde_json::from_str(text).ok()?;
    Some(parsed.as_str()?.to_owned())
}

/// Relies on serde_json::from_str::<Value>, Value::as_array and
/// Value::to_string: a JSON array parses to its elements; string
/// elements are taken verbatim, others rendered as their JSON text.
#[verifier::external_body]
pub(crate) fn parse_json_list(raw: &str) -> (r: Option<Vec<String>>)
    ensures
        r is Some <==> json_list_values(raw@) is Some,
        (r matches Some(v) ==> json_list_values(raw@) == Some(
            v@.map_values(|s: String| s@),
        )),
{
    let parsed: serde_json::Value = serde_json::from_str(raw).ok()?;
    let arr = parsed.as_array()?;
    Some(arr.iter().map(|item| match item {
        serde_json::Value::String(s) => s.clone(),
        serde_json::Value::Number(n) => n.to_string(),
        serde_json::Value::Bool(b) => b.to_string(),
        other => other.to_string(),
    }).collect())
}

} // verus!
