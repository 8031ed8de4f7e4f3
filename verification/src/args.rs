//! Supplied argument values: the map the binder reads parameter values
//! from, and the parsing of raw `name:value` / `name=value` header and
//! query arguments.

use vstd::prelude::*;

use crate::errors::{CliError, CliErrorView};
use crate::text::{spec_trim, trim};

verus! {

/// The values supplied for one invocation, keyed by parameter name. The
/// first entry of a name wins.
pub struct ArgValues {
    pub entries: Vec<(String, Vec<String>)>,
}

/// The view of one entry: its name and its values, as character
/// sequences.
pub open spec fn entry_view(e: (String, Vec<String>)) -> (Seq<char>, Seq<Seq<char>>) {
    (e.0@, e.1@.map_values(|s: String| s@))
}

impl View for ArgValues {
    type V = Seq<(Seq<char>, Seq<Seq<char>>)>;

    open spec fn view(&self) -> Seq<(Seq<char>, Seq<Seq<char>>)> {
        self.entries@.map_values(|e: (String, Vec<String>)| entry_view(e))
    }
}

/// The values under the first entry named `name`, if any.
pub open spec fn spec_lookup(
    entries: Seq<(Seq<char>, Seq<Seq<char>>)>,
    name: Seq<char>,
) -> Option<Seq<Seq<char>>>
    decreases entries.len(),
{
    if entries.len() == 0 {
        None
    } else if entries[0].0 == name {
        Some(entries[0].1)
    } else {
        spec_lookup(entries.skip(1), name)
    }
}

impl ArgValues {
    /// Looks the supplied values of `name` up; the first entry wins.
    pub fn get<'a>(&'a self, name: &str) -> (r: Option<&'a Vec<String>>)
        ensures
            match r {
                Some(v) => spec_lookup(self@, name@) == Some(v@.map_values(|s: String| s@)),
                None => spec_lookup(self@, name@) is None,
            },
    {
        let ghost all = self@;
        proof {
            assert(all.skip(0) =~= all);
        }
        let mut i: usize = 0;
        while i < self.entries.len()
            invariant
                i <= self.entries.len(),
                all == self@,
                all.len() == self.entries.len(),
                spec_lookup(all.skip(i as int), name@) == spec_lookup(all, name@),
                forall|j: int| 0 <= j < all.len() ==> all[j] == entry_view(self.entries[j]),
            decreases self.entries.len() - i,
        {
            let entry = &self.entries[i];
            if crate::text::str_eq(entry.0.as_str(), name) {
                proof {
                    assert(all.skip(i as int)[0] == entry_view(self.entries[i as int]));
                }
                return Some(&entry.1);
            }
            proof {
                assert(all.skip(i as int).skip(1) =~= all.skip(i + 1));
            }
            i += 1;
        }
        proof {
            assert(all.skip(i as int) =~= Seq::<(Seq<char>, Seq<Seq<char>>)>::empty());
        }
        None
    }
}

/// The index of the first occurrence of `c` in `s`, if any.
pub open spec fn spec_find_char(s: Seq<char>, c: char) -> Option<int>
    decreases s.len(),
{
    if s.len() == 0 {
        None
    } else if s[0] == c {
        Some(0)
    } else {
        match spec_find_char(s.skip(1), c) {
            None => None,
            Some(i) => Some(i + 1),
        }
    }
}

/// A helper for reasoning about `spec_find_char`: the first index at
/// which `c` appears determines the result.
proof fn lemma_find_char_is(s: Seq<char>, c: char, i: int)
    requires
        0 <= i <= s.len(),
        forall|k: int| 0 <= k < i ==> s[k] != c,
        i < s.len() ==> s[i] == c,
    ensures
        i == s.len() ==> spec_find_char(s, c) is None,
        i < s.len() ==> spec_find_char(s, c) == Some(i),
    decreases s.len(),
{
    if i == 0 {
    } else {
        lemma_find_char_is(s.skip(1), c, i - 1);
    }
}

/// Finds the first occurrence of `c` in `s`.
fn find_char(s: &str, c: char) -> (r: Option<usize>)
    ensures
        match r {
            Some(i) => spec_find_char(s@, c) == Some(i as int) && i < s@.len(),
            None => spec_find_char(s@, c) is None,
        },
{
    let len = s.unicode_len();
    let mut i: usize = 0;
    while i < len && s.get_char(i) != c
        invariant
            i <= len,
            len == s@.len(),
            forall|k: int| 0 <= k < i ==> s@[k] != c,
        decreases len - i,
    {
        i += 1;
    }
    proof {
        lemma_find_char_is(s@, c, i as int);
    }
    if i < len {
        Some(i)
    } else {
        None
    }
}

/// A raw header or query argument split at its first `:`, or failing
/// that its first `=`, both sides trimmed; None when neither occurs.
pub open spec fn spec_split_header(v: Seq<char>) -> Option<(Seq<char>, Seq<char>)> {
    match spec_find_char(v, ':') {
        Some(i) => Some((spec_trim(v.take(i)), spec_trim(v.skip(i + 1)))),
        None => match spec_find_char(v, '=') {
            Some(i) => Some((spec_trim(v.take(i)), spec_trim(v.skip(i + 1)))),
            None => None,
        },
    }
}

/// Splits a raw `name:value` or `name=value` argument, trimming both
/// sides; `:` wins over `=`.
pub fn split_header(value: &str) -> (r: Option<(&str, &str)>)
    ensures
        match r {
            Some(kv) => spec_split_header(value@) == Some((kv.0@, kv.1@)),
            None => spec_split_header(value@) is None,
        },
{
    let len = value.unicode_len();
    let sep = match find_char(value, ':') {
        Some(i) => Some(i),
        None => find_char(value, '='),
    };
    match sep {
        Some(i) => {
            let k = trim(value.substring_char(0, i));
            let v = trim(value.substring_char(i + 1, len));
            Some((k, v))
        },
        None => None,
    }
}

/// The pair view of a vector of string pairs.
pub open spec fn pairs_view(s: Seq<(String, String)>) -> Seq<(Seq<char>, Seq<char>)> {
    s.map_values(|p: (String, String)| (p.0@, p.1@))
}

/// The header pairs a list of raw arguments yields: each splittable
/// argument contributes its pair, the rest are skipped.
pub open spec fn spec_header_pairs(vs: Seq<Seq<char>>) -> Seq<(Seq<char>, Seq<char>)>
    decreases vs.len(),
{
    if vs.len() == 0 {
        Seq::empty()
    } else {
        match spec_split_header(vs[0]) {
            Some(kv) => seq![kv] + spec_header_pairs(vs.skip(1)),
            None => spec_header_pairs(vs.skip(1)),
        }
    }
}

/// Parses raw `--header` arguments; arguments with neither `:` nor `=`
/// are skipped.
pub fn parse_header_args(values: &Vec<String>) -> (r: Vec<(String, String)>)
    ensures
        pairs_view(r@) == spec_header_pairs(values@.map_values(|s: String| s@)),
{
    let ghost vs = values@.map_values(|s: String| s@);
    let mut out: Vec<(String, String)> = Vec::new();
    proof {
        assert(vs.skip(0) =~= vs);
        assert(pairs_view(out@) + spec_header_pairs(vs) =~= spec_header_pairs(vs));
    }
    let mut i: usize = 0;
    while i < values.len()
        invariant
            i <= values.len(),
            vs == values@.map_values(|s: String| s@),
            vs.len() == values.len(),
            pairs_view(out@) + spec_header_pairs(vs.skip(i as int)) == spec_header_pairs(vs),
        decreases values.len() - i,
    {
        let ghost out0 = out@;
        let ghost rest = vs.skip(i as int);
        proof {
            assert(rest[0] == vs[i as int]);
            assert(rest.skip(1) =~= vs.skip(i + 1));
        }
        match split_header(values[i].as_str()) {
            Some(kv) => {
                out.push((kv.0.to_owned(), kv.1.to_owned()));
                proof {
                    assert(pairs_view(out@) =~= pairs_view(out0) + seq![(kv.0@, kv.1@)]);
                    assert(pairs_view(out0) + (seq![(kv.0@, kv.1@)] + spec_header_pairs(
                        vs.skip(i + 1),
                    )) =~= (pairs_view(out0) + seq![(kv.0@, kv.1@)]) + spec_header_pairs(
                        vs.skip(i + 1),
                    ));
                }
            },
            None => {},
        }
        i += 1;
    }
    proof {
        assert(vs.skip(i as int) =~= Seq::<Seq<char>>::empty());
        assert(pairs_view(out@) + Seq::<(Seq<char>, Seq<char>)>::empty() =~= pairs_view(out@));
    }
    out
}

/// The query pairs a list of raw arguments yields, or the first
/// unsplittable argument as an error.
pub open spec fn spec_kv_pairs(vs: Seq<Seq<char>>) -> Result<
    Seq<(Seq<char>, Seq<char>)>,
    CliErrorView,
>
    decreases vs.len(),
{
    if vs.len() == 0 {
        Ok(Seq::empty())
    } else {
        match spec_split_header(vs[0]) {
            None => Err(CliErrorView::InvalidQueryArg(vs[0])),
            Some(kv) => match spec_kv_pairs(vs.skip(1)) {
                Ok(rest) => Ok(seq![kv] + rest),
                Err(e) => Err(e),
            },
        }
    }
}

/// Parses raw `--query` arguments; an argument with neither `:` nor `=`
/// is an error.
pub fn parse_kv_args(values: &Vec<String>) -> (r: Result<Vec<(String, String)>, CliError>)
    ensures
        match r {
            Ok(v) => spec_kv_pairs(values@.map_values(|s: String| s@)) == Ok::<
                Seq<(Seq<char>, Seq<char>)>,
                CliErrorView,
            >(pairs_view(v@)),
            Err(e) => spec_kv_pairs(values@.map_values(|s: String| s@)) == Err::<
                Seq<(Seq<char>, Seq<char>)>,
                CliErrorView,
            >(e@),
        },
{
    let ghost vs = values@.map_values(|s: String| s@);
    let mut out: Vec<(String, String)> = Vec::new();
    proof {
        assert(vs.skip(0) =~= vs);
    }
    let mut i: usize = 0;
    while i < values.len()
        invariant
            i <= values.len(),
            vs == values@.map_values(|s: String| s@),
            vs.len() == values.len(),
            spec_kv_pairs(vs) == match spec_kv_pairs(vs.skip(i as int)) {
                Ok(rest) => Ok::<Seq<(Seq<char>, Seq<char>)>, CliErrorView>(
                    pairs_view(out@) + rest,
                ),
                Err(e) => Err(e),
            },
        decreases values.len() - i,
    {
        let ghost out0 = out@;
        let ghost rest = vs.skip(i as int);
        proof {
            assert(rest[0] == vs[i as int]);
            assert(rest.skip(1) =~= vs.skip(i + 1));
        }
        match split_header(values[i].as_str()) {
            Some(kv) => {
                out.push((kv.0.to_owned(), kv.1.to_owned()));
                proof {
                    assert(pairs_view(out@) =~= pairs_view(out0) + seq![(kv.0@, kv.1@)]);
                    if spec_kv_pairs(vs.skip(i + 1)) is Ok {
                        let tail = spec_kv_pairs(vs.skip(i + 1))->Ok_0;
                        assert(pairs_view(out0) + (seq![(kv.0@, kv.1@)] + tail) =~= (pairs_view(
                            out0,
                        ) + seq![(kv.0@, kv.1@)]) + tail);
                    }
                }
            },
            None => {
                return Err(CliError::InvalidQueryArg { raw: values[i].clone() });
            },
        }
        i += 1;
    }
    proof {
        assert(vs.skip(i as int) =~= Seq::<Seq<char>>::empty());
        assert(pairs_view(out@) + Seq::<(Seq<char>, Seq<char>)>::empty() =~= pairs_view(out@));
    }
    Ok(out)
}

} // verus!
