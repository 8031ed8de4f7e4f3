//! Verified string utilities over `Seq<char>` views: equality, prefix
//! tests (exact and ASCII-case-insensitive), substring search, trimming
//! and placeholder replacement. These carry the parameter binder and the
//! HTML-response heuristic.

use vstd::prelude::*;

use crate::chars::{eq_ignore_case, is_space, spec_eq_ignore_case, spec_is_space};

verus! {

/// `needle` occurs in `hay` starting at index `i`.
pub open spec fn occurs_at(hay: Seq<char>, needle: Seq<char>, i: int) -> bool {
    0 <= i && i + needle.len() <= hay.len() && hay.subrange(i, i + needle.len() as int)
        == needle
}

/// `needle` occurs somewhere in `hay`.
pub open spec fn occurs(hay: Seq<char>, needle: Seq<char>) -> bool {
    exists|i: int| occurs_at(hay, needle, i)
}

/// `s` begins with `prefix`.
pub open spec fn spec_starts_with(s: Seq<char>, prefix: Seq<char>) -> bool {
    prefix.len() <= s.len() && s.subrange(0, prefix.len() as int) == prefix
}

/// `s` begins with `prefix`, comparing characters up to ASCII case.
pub open spec fn spec_starts_with_ignore_case(s: Seq<char>, prefix: Seq<char>) -> bool {
    prefix.len() <= s.len() && forall|j: int|
        0 <= j < prefix.len() ==> spec_eq_ignore_case(s[j], prefix[j])
}

/// The number of whitespace characters at the front of `s`.
pub open spec fn leading_spaces(s: Seq<char>) -> nat
    decreases s.len(),
{
    if s.len() > 0 && spec_is_space(s[0]) {
        1 + leading_spaces(s.skip(1))
    } else {
        0
    }
}

/// `s` with leading whitespace removed.
pub open spec fn spec_trim_start(s: Seq<char>) -> Seq<char> {
    s.skip(leading_spaces(s) as int)
}

/// The number of whitespace characters at the back of `s`.
pub open spec fn trailing_spaces(s: Seq<char>) -> nat
    decreases s.len(),
{
    if s.len() > 0 && spec_is_space(s[s.len() - 1]) {
        1 + trailing_spaces(s.take(s.len() - 1))
    } else {
        0
    }
}

/// `s` with leading and trailing whitespace removed.
pub open spec fn spec_trim(s: Seq<char>) -> Seq<char> {
    let t = spec_trim_start(s);
    t.take(t.len() - trailing_spaces(t))
}

/// `hay` with every left-to-right, non-overlapping occurrence of
/// `needle` replaced by `with`; scanning resumes after each replacement.
/// An empty `needle` replaces nothing.
pub open spec fn spec_replaced(hay: Seq<char>, needle: Seq<char>, with: Seq<char>) -> Seq<char>
    decreases hay.len(),
{
    if needle.len() == 0 || hay.len() < needle.len() {
        hay
    } else if hay.subrange(0, needle.len() as int) == needle {
        with + spec_replaced(hay.skip(needle.len() as int), needle, with)
    } else {
        hay.take(1) + spec_replaced(hay.skip(1), needle, with)
    }
}

/// Law: replacement touches only the token. Text in which the token does
/// not occur comes back unchanged.
pub proof fn lemma_replaced_absent(hay: Seq<char>, needle: Seq<char>, with: Seq<char>)
    requires
        needle.len() > 0,
        !occurs(hay, needle),
    ensures
        spec_replaced(hay, needle, with) == hay,
    decreases hay.len(),
{
    if hay.len() < needle.len() {
    } else {
        assert(!occurs_at(hay, needle, 0));
        assert(hay.subrange(0, needle.len() as int) != needle);
        assert forall|i: int| !occurs_at(hay.skip(1), needle, i) by {
            if occurs_at(hay.skip(1), needle, i) {
                assert(hay.subrange(i + 1, i + 1 + needle.len()) =~= hay.skip(1).subrange(
                    i,
                    i + needle.len() as int,
                ));
                assert(occurs_at(hay, needle, i + 1));
                assert(occurs(hay, needle));
            }
        }
        lemma_replaced_absent(hay.skip(1), needle, with);
        assert(hay.take(1) + hay.skip(1) =~= hay);
    }
}

/// Law: replacement substitutes every occurrence of the token, left to
/// right. If the token's first occurrence begins right after `pre`, the
/// text before it and the replacement value pass through verbatim, and
/// scanning continues after the occurrence.
pub proof fn lemma_replaced_at_first(
    pre: Seq<char>,
    needle: Seq<char>,
    rest: Seq<char>,
    with: Seq<char>,
)
    requires
        needle.len() > 0,
        forall|i: int| 0 <= i < pre.len() ==> !occurs_at(pre + needle + rest, needle, i),
    ensures
        spec_replaced(pre + needle + rest, needle, with) == pre + with + spec_replaced(
            rest,
            needle,
            with,
        ),
    decreases pre.len(),
{
    let hay = pre + needle + rest;
    if pre.len() == 0 {
        assert(hay.subrange(0, needle.len() as int) =~= needle);
        assert(hay.skip(needle.len() as int) =~= rest);
        assert(pre + with + spec_replaced(rest, needle, with) =~= with + spec_replaced(
            rest,
            needle,
            with,
        ));
    } else {
        assert(!occurs_at(hay, needle, 0));
        assert(hay.len() >= needle.len());
        assert(hay.subrange(0, needle.len() as int) != needle) by {
            if hay.subrange(0, needle.len() as int) == needle {
                assert(occurs_at(hay, needle, 0));
            }
        }
        let pre1 = pre.skip(1);
        let hay1 = pre1 + needle + rest;
        assert(hay.skip(1) =~= hay1);
        assert forall|i: int| 0 <= i < pre1.len() implies !occurs_at(hay1, needle, i) by {
            if occurs_at(hay1, needle, i) {
                assert(hay.subrange(i + 1, i + 1 + needle.len()) =~= hay1.subrange(
                    i,
                    i + needle.len() as int,
                ));
                assert(occurs_at(hay, needle, i + 1));
            }
        }
        lemma_replaced_at_first(pre1, needle, rest, with);
        assert(hay.take(1) + (pre1 + with + spec_replaced(rest, needle, with)) =~= pre + with
            + spec_replaced(rest, needle, with));
    }
}

pub fn str_eq(a: &str, b: &str) -> (r: bool)
    ensures
        r == (a@ == b@),
{
    let alen = a.unicode_len();
    let blen = b.unicode_len();
    if alen != blen {
        assert(a@ != b@);
        return false;
    }
    let mut j: usize = 0;
    while j < alen
        invariant
            j <= alen,
            alen == a@.len(),
            alen == b@.len(),
            forall|k: int| 0 <= k < j ==> a@[k] == b@[k],
        decreases alen - j,
    {
        if a.get_char(j) != b.get_char(j) {
            return false;
        }
        j += 1;
    }
    proof {
        assert(a@ =~= b@);
    }
    true
}

/// Whether `needle` occurs in `hay` starting exactly at index `i`.
fn match_at(hay: &str, needle: &str, i: usize) -> (r: bool)
    requires
        i + needle@.len() <= hay@.len(),
        hay@.len() <= usize::MAX,
    ensures
        r == (hay@.subrange(i as int, i + needle@.len() as int) == needle@),
{
    let nlen = needle.unicode_len();
    let mut j: usize = 0;
    while j < nlen
        invariant
            j <= nlen,
            nlen == needle@.len(),
            i + nlen <= hay@.len(),
            hay@.len() <= usize::MAX,
            forall|k: int| 0 <= k < j ==> hay@[i + k] == needle@[k],
        decreases nlen - j,
    {
        if hay.get_char(i + j) != needle.get_char(j) {
            assert(hay@.subrange(i as int, i + needle@.len() as int)[j as int] != needle@[j as int]);
            return false;
        }
        j += 1;
    }
    proof {
        assert(hay@.subrange(i as int, i + needle@.len() as int) =~= needle@);
    }
    true
}

pub fn starts_with(s: &str, prefix: &str) -> (r: bool)
    ensures
        r == spec_starts_with(s@, prefix@),
{
    let plen = prefix.unicode_len();
    if plen > s.unicode_len() {
        return false;
    }
    match_at(s, prefix, 0)
}

pub fn starts_with_ignore_case(s: &str, prefix: &str) -> (r: bool)
    ensures
        r == spec_starts_with_ignore_case(s@, prefix@),
{
    let plen = prefix.unicode_len();
    if plen > s.unicode_len() {
        return false;
    }
    let mut j: usize = 0;
    while j < plen
        invariant
            j <= plen,
            plen == prefix@.len(),
            plen <= s@.len(),
            forall|k: int| 0 <= k < j ==> spec_eq_ignore_case(s@[k], prefix@[k]),
        decreases plen - j,
    {
        if !eq_ignore_case(s.get_char(j), prefix.get_char(j)) {
            return false;
        }
        j += 1;
    }
    true
}

pub fn contains_sub(hay: &str, needle: &str) -> (r: bool)
    ensures
        r == occurs(hay@, needle@),
{
    let hlen = hay.unicode_len();
    let nlen = needle.unicode_len();
    if nlen > hlen {
        assert(!occurs(hay@, needle@));
        return false;
    }
    if nlen == 0 {
        proof {
            assert(hay@.subrange(0, 0) =~= needle@);
            assert(occurs_at(hay@, needle@, 0));
        }
        return true;
    }
    let mut i: usize = 0;
    while i <= hlen - nlen
        invariant
            1 <= nlen <= hlen,
            hlen == hay@.len(),
            nlen == needle@.len(),
            i <= hlen - nlen + 1,
            forall|k: int| 0 <= k < i ==> !occurs_at(hay@, needle@, k),
        decreases hlen - i,
    {
        if match_at(hay, needle, i) {
            assert(occurs_at(hay@, needle@, i as int));
            return true;
        }
        i += 1;
    }
    proof {
        assert(forall|k: int| occurs_at(hay@, needle@, k) ==> 0 <= k && k + nlen <= hlen);
        assert(!occurs(hay@, needle@));
    }
    false
}

/// A helper for reasoning about `leading_spaces`: it is the index of the
/// first non-whitespace character, capped at the length.
proof fn lemma_leading_spaces_is(s: Seq<char>, i: int)
    requires
        0 <= i <= s.len(),
        forall|k: int| 0 <= k < i ==> spec_is_space(s[k]),
        i < s.len() ==> !spec_is_space(s[i]),
    ensures
        leading_spaces(s) == i,
    decreases s.len(),
{
    if i == 0 {
    } else {
        assert(spec_is_space(s[0]));
        lemma_leading_spaces_is(s.skip(1), i - 1);
    }
}

pub fn trim_start<'a>(s: &'a str) -> (r: &'a str)
    ensures
        r@ == spec_trim_start(s@),
{
    let len = s.unicode_len();
    let mut i: usize = 0;
    while i < len && is_space(s.get_char(i))
        invariant
            i <= len,
            len == s@.len(),
            forall|k: int| 0 <= k < i ==> spec_is_space(s@[k]),
        decreases len - i,
    {
        i += 1;
    }
    proof {
        lemma_leading_spaces_is(s@, i as int);
    }
    s.substring_char(i, len)
}

/// A helper for reasoning about `trailing_spaces`: whitespace fills
/// exactly the tail beyond index `i`.
proof fn lemma_trailing_spaces_is(s: Seq<char>, i: int)
    requires
        0 <= i <= s.len(),
        forall|k: int| i <= k < s.len() ==> spec_is_space(s[k]),
        i > 0 ==> !spec_is_space(s[i - 1]),
    ensures
        trailing_spaces(s) == s.len() - i,
    decreases s.len(),
{
    if i == s.len() {
        if s.len() > 0 && spec_is_space(s[s.len() - 1]) {
            lemma_trailing_spaces_is(s.take(s.len() - 1), i - 1);
        }
    } else {
        assert(spec_is_space(s[s.len() - 1]));
        lemma_trailing_spaces_is(s.take(s.len() - 1), i);
    }
}

pub fn trim<'a>(s: &'a str) -> (r: &'a str)
    ensures
        r@ == spec_trim(s@),
{
    let t = trim_start(s);
    let tlen = t.unicode_len();
    let mut j: usize = tlen;
    while j > 0 && is_space(t.get_char(j - 1))
        invariant
            j <= tlen,
            tlen == t@.len(),
            forall|k: int| j <= k < tlen ==> spec_is_space(t@[k]),
        decreases j,
    {
        j -= 1;
    }
    proof {
        lemma_trailing_spaces_is(t@, j as int);
    }
    t.substring_char(0, j)
}

pub fn replace_all(hay: &str, needle: &str, with: &str) -> (r: String)
    ensures
        r@ == spec_replaced(hay@, needle@, with@),
{
    let hlen = hay.unicode_len();
    let nlen = needle.unicode_len();
    if nlen == 0 {
        return hay.to_owned();
    }
    let mut out = String::new();
    proof {
        assert(hay@.skip(0) =~= hay@);
        assert(out@ + spec_replaced(hay@, needle@, with@) =~= spec_replaced(hay@, needle@, with@));
    }
    let mut i: usize = 0;
    while i < hlen
        invariant
            i <= hlen,
            hlen == hay@.len(),
            nlen == needle@.len(),
            nlen >= 1,
            out@ + spec_replaced(hay@.skip(i as int), needle@, with@) == spec_replaced(
                hay@,
                needle@,
                with@,
            ),
        decreases hlen - i,
    {
        let ghost rest = hay@.skip(i as int);
        if nlen <= hlen - i && match_at(hay, needle, i) {
            out.append(with);
            proof {
                assert(rest.subrange(0, nlen as int) =~= hay@.subrange(i as int, i + nlen));
                assert(rest.skip(nlen as int) =~= hay@.skip(i + nlen));
                assert(spec_replaced(rest, needle@, with@) == with@ + spec_replaced(
                    hay@.skip(i + nlen),
                    needle@,
                    with@,
                ));
            }
            i += nlen;
        } else {
            let piece = hay.substring_char(i, i + 1);
            out.append(piece);
            proof {
                assert(piece@ =~= rest.take(1));
                assert(rest.skip(1) =~= hay@.skip(i + 1));
                if rest.len() < nlen {
                    assert(spec_replaced(rest, needle@, with@) == rest);
                    assert(hay@.skip(i + 1) =~= rest.skip(1));
                    assert(spec_replaced(hay@.skip(i + 1), needle@, with@) == hay@.skip(i + 1));
                    assert(rest =~= rest.take(1) + rest.skip(1));
                } else {
                    assert(rest.subrange(0, nlen as int) =~= hay@.subrange(i as int, i + nlen));
                    assert(rest.subrange(0, nlen as int) != needle@);
                    assert(spec_replaced(rest, needle@, with@) == rest.take(1) + spec_replaced(
                        rest.skip(1),
                        needle@,
                        with@,
                    ));
                }
            }
            i += 1;
        }
    }
    proof {
        assert(hay@.skip(hlen as int) =~= Seq::<char>::empty());
        assert(spec_replaced(hay@.skip(hlen as int), needle@, with@) =~= Seq::<char>::empty());
        assert(out@ =~= out@ + Seq::<char>::empty());
    }
    out
}

} // verus!
