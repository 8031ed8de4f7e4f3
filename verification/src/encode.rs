//! Trusted boundary to the urlencoding crate, which percent-encodes path
//! parameter values before substitution.

use vstd::prelude::*;

verus! {

/// A character percent-encoding passes through unchanged: an ASCII
/// alphanumeric or one of `-`, `_`, `.`, `~`.
pub open spec fn unreserved_char(c: char) -> bool {
    (48 <= c as u32 <= 57) || (65 <= c as u32 <= 90) || (97 <= c as u32 <= 122) || c == '-'
        || c == '_' || c == '.' || c == '~'
}

/// The percent-encoding of `s`, as urlencoding::encode produces it.
pub uninterp spec fn percent_encoding_of(s: Seq<char>) -> Seq<char>;

/// Relies on urlencoding::encode: percent-encodes every byte of the
/// UTF-8 form of `s` except ASCII alphanumerics and `-`, `_`, `.`, `~`,
/// deterministically in the input. Every output character is therefore
/// unreserved, a `%`, or a hex digit (itself alphanumeric); an empty
/// input encodes to an empty output.
#[verifier::external_body]
pub(crate) fn percent_encode(s: &str) -> (r: String)
    ensures
        r@ == percent_encoding_of(s@),
        forall|i: int| 0 <= i < r@.len() ==> (r@[i] == '%' || unreserved_char(r@[i])),
        s@.len() == 0 ==> r@.len() == 0,
{
    urlencoding::encode(s).into_owned()
}

} // verus!
