//! URL building: a verified join of base URL and request path, the
//! joined text validated by the url crate behind a trusted boundary, and
//! the query pairs appended as the form-encoded text the same crate's
//! serializer writes.

use vstd::prelude::*;

use crate::args::pairs_view;
use crate::errors::CliError;
use crate::text::{contains_sub, occurs, spec_starts_with};

verus! {

#[verifier::external_type_specification]
#[verifier::external_body]
pub struct ExUrl(url::Url);

#[verifier::external_type_specification]
#[verifier::external_body]
pub struct ExUrlParseError(url::ParseError);

/// Whether url::Url::parse accepts `s`.
pub uninterp spec fn url_ok(s: Seq<char>) -> bool;

/// Relies on url::Url::parse: deterministic in the input; succeeds
/// exactly on the absolute URLs it accepts.
#[verifier::external_body]
pub(crate) fn parse_url(s: &str) -> (r: Result<url::Url, url::ParseError>)
    ensures
        r is Ok <==> url_ok(s@),
{
    url::Url::parse(s)
}

/// The form-encoded query string of `pairs`, as form_urlencoded's
/// serializer (the one url::Url::query_pairs_mut drives) writes it: one
/// name=value per pair, in order, joined by `&`, both sides encoded.
pub uninterp spec fn form_encoded_query(pairs: Seq<(Seq<char>, Seq<char>)>) -> Seq<char>;

/// Relies on form_urlencoded::Serializer::{new, extend_pairs, finish}:
/// deterministic in the pairs, and an empty pair list writes nothing.
#[verifier::external_body]
pub(crate) fn encode_query_pairs(pairs: &Vec<(String, String)>) -> (r: String)
    ensures
        r@ == form_encoded_query(pairs_view(pairs@)),
        pairs@.len() == 0 ==> r@.len() == 0,
{
    let mut serializer = form_urlencoded::Serializer::new(String::new());
    serializer.extend_pairs(pairs.iter());
    serializer.finish()
}

/// The number of `/` characters at the back of `s`.
pub open spec fn trailing_slashes(s: Seq<char>) -> nat
    decreases s.len(),
{
    if s.len() > 0 && s[s.len() - 1] == '/' {
        1 + trailing_slashes(s.take(s.len() - 1))
    } else {
        0
    }
}

/// The base URL, stripped of trailing slashes, joined with the path,
/// which is given a leading slash when it lacks one.
pub open spec fn spec_join(base: Seq<char>, path: Seq<char>) -> Seq<char> {
    let stem = base.take(base.len() - trailing_slashes(base));
    if spec_starts_with(path, "/"@) {
        stem + path
    } else {
        stem + "/"@ + path
    }
}

/// A helper for reasoning about `trailing_slashes`: slashes fill exactly
/// the tail beyond index `i`.
proof fn lemma_trailing_slashes_is(s: Seq<char>, i: int)
    requires
        0 <= i <= s.len(),
        forall|k: int| i <= k < s.len() ==> s[k] == '/',
        i > 0 ==> s[i - 1] != '/',
    ensures
        trailing_slashes(s) == s.len() - i,
    decreases s.len(),
{
    if i == s.len() {
        if s.len() > 0 && s[s.len() - 1] == '/' {
            lemma_trailing_slashes_is(s.take(s.len() - 1), i - 1);
        }
    } else {
        assert(s[s.len() - 1] == '/');
        lemma_trailing_slashes_is(s.take(s.len() - 1), i);
    }
}

/// Joins the base URL and the path as text.
pub fn join_base_path(base: &str, path: &str) -> (r: String)
    ensures
        r@ == spec_join(base@, path@),
{
    let blen = base.unicode_len();
    let mut j: usize = blen;
    while j > 0 && base.get_char(j - 1) == '/'
        invariant
            j <= blen,
            blen == base@.len(),
            forall|k: int| j <= k < blen ==> base@[k] == '/',
        decreases j,
    {
        j -= 1;
    }
    proof {
        lemma_trailing_slashes_is(base@, j as int);
    }
    let stem = base.substring_char(0, j);
    if crate::text::starts_with(path, "/") {
        stem.to_owned().concat(path)
    } else {
        let r = stem.to_owned().concat("/").concat(path);
        proof {
            assert(stem@ + "/"@ + path@ =~= spec_join(base@, path@));
        }
        r
    }
}

/// The URL of one physical call, as text: the joined base and path with
/// the form-encoded query pairs appended — after a new `?` when the
/// joined text has none, directly after a bare trailing `?`, and after
/// `&` when a query already follows one; nothing for an empty list.
pub open spec fn spec_url_text(joined: Seq<char>, pairs: Seq<(Seq<char>, Seq<char>)>) -> Seq<
    char,
> {
    if pairs.len() == 0 {
        joined
    } else if !occurs(joined, "?"@) {
        joined + "?"@ + form_encoded_query(pairs)
    } else if joined.len() > 0 && joined[joined.len() - 1] == '?' {
        joined + form_encoded_query(pairs)
    } else {
        joined + "&"@ + form_encoded_query(pairs)
    }
}

/// Builds the URL for one physical call: joins base and path, checks
/// that the join parses as a URL, and appends the encoded query pairs in
/// order.
pub fn build_url(base: &str, path: &str, query: &Vec<(String, String)>) -> (r: Result<
    String,
    CliError,
>)
    ensures
        r is Ok <==> url_ok(spec_join(base@, path@)),
        (r matches Ok(s) ==> s@ == spec_url_text(spec_join(base@, path@), pairs_view(query@))),
        r is Err ==> r == Err::<String, CliError>(CliError::InvalidUrl),
{
    let joined = join_base_path(base, path);
    match parse_url(joined.as_str()) {
        Ok(_) => {},
        Err(_) => {
            return Err(CliError::InvalidUrl);
        },
    }
    if query.len() == 0 {
        return Ok(joined);
    }
    let encoded = encode_query_pairs(query);
    if !contains_sub(joined.as_str(), "?") {
        return Ok(joined.concat("?").concat(encoded.as_str()));
    }
    let jlen = joined.as_str().unicode_len();
    if jlen > 0 && joined.as_str().get_char(jlen - 1) == '?' {
        Ok(joined.concat(encoded.as_str()))
    } else {
        Ok(joined.concat("&").concat(encoded.as_str()))
    }
}

} // verus!
