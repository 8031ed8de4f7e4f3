//! The parameter binder: turns an operation's declared parameters and
//! the supplied argument values into a resolved path, query pairs and
//! header pairs, or fails before anything is sent.

use vstd::prelude::*;

use crate::args::{pairs_view, spec_lookup, ArgValues};
use crate::catalogue::{Operation, OperationView, ParamDef, ParamDefView};
use crate::encode::{percent_encode, percent_encoding_of};
use crate::errors::{CliError, CliErrorView};
use crate::jsonio::{json_list_values, parse_json_list};
use crate::text::{
    replace_all, spec_replaced, spec_starts_with, spec_trim_start, starts_with, trim_start,
};

verus! {

/// What the binder produces: the resolved path, the query pairs and the
/// extra header pairs, in declaration order.
pub ghost struct BoundParts {
    pub path: Seq<char>,
    pub query: Seq<(Seq<char>, Seq<char>)>,
    pub headers: Seq<(Seq<char>, Seq<char>)>,
}

/// How one parameter's supplied values resolve.
pub ghost enum ResolvedParam {
    /// No value supplied.
    Missing,
    /// The single value looked like a JSON array literal but did not
    /// parse to a JSON array.
    BadList,
    /// The resolved value list.
    Values(Seq<Seq<char>>),
}

/// The placeholder token a path parameter substitutes in the template.
pub open spec fn spec_placeholder(name: Seq<char>) -> Seq<char> {
    "{"@ + name + "}"@
}

/// A value that looks like a JSON array literal: after leading
/// whitespace it begins with `[`.
pub open spec fn spec_looks_like_json_array(s: Seq<char>) -> bool {
    spec_starts_with(spec_trim_start(s), "["@)
}

/// How one parameter resolves against the supplied values: absent (or
/// empty) entries are missing; an array parameter's single
/// array-literal-shaped value is parsed as JSON and flattened; any other
/// values are taken verbatim, a non-array parameter keeping only its
/// first.
pub open spec fn spec_resolve(p: ParamDefView, args: Seq<(Seq<char>, Seq<Seq<char>>)>) -> ResolvedParam {
    match spec_lookup(args, p.name) {
        None => ResolvedParam::Missing,
        Some(vs0) => if vs0.len() == 0 {
            ResolvedParam::Missing
        } else {
            let vs = if p.is_array {
                vs0
            } else {
                seq![vs0[0]]
            };
            if p.is_array && vs.len() == 1 && spec_looks_like_json_array(vs[0]) {
                match json_list_values(vs[0]) {
                    None => ResolvedParam::BadList,
                    Some(xs) => ResolvedParam::Values(xs),
                }
            } else {
                ResolvedParam::Values(vs)
            }
        },
    }
}

/// One query or header pair per resolved value, in order.
pub open spec fn spec_pairs_for(key: Seq<char>, vs: Seq<Seq<char>>) -> Seq<(Seq<char>, Seq<char>)> {
    vs.map_values(|v: Seq<char>| (key, v))
}

/// The binder's fold over the declared parameters, threading the path
/// and the accumulated pairs. A missing required parameter, a bad array
/// literal, and a path parameter left without a value — unsupplied,
/// required or not, or resolved to an empty list — each fail, so no
/// unresolved placeholder of a declared parameter is ever sent; a `path`
/// parameter substitutes its percent-encoded first value for every
/// occurrence of its placeholder; `query` and `header` parameters append
/// one pair per value; any other location is inert.
pub open spec fn spec_bind_params(
    params: Seq<ParamDefView>,
    args: Seq<(Seq<char>, Seq<Seq<char>>)>,
    path: Seq<char>,
    query: Seq<(Seq<char>, Seq<char>)>,
    headers: Seq<(Seq<char>, Seq<char>)>,
) -> Result<BoundParts, CliErrorView>
    decreases params.len(),
{
    if params.len() == 0 {
        Ok(BoundParts { path, query, headers })
    } else {
        let p = params[0];
        let rest = params.skip(1);
        match spec_resolve(p, args) {
            ResolvedParam::Missing => if p.required {
                Err(CliErrorView::MissingRequiredParam(p.flag))
            } else if p.location == "path"@ {
                Err(CliErrorView::MissingPathValue(p.flag))
            } else {
                spec_bind_params(rest, args, path, query, headers)
            },
            ResolvedParam::BadList => Err(CliErrorView::InvalidJsonList),
            ResolvedParam::Values(vs) => if p.location == "path"@ {
                if vs.len() == 0 {
                    Err(CliErrorView::MissingPathValue(p.flag))
                } else {
                    spec_bind_params(
                        rest,
                        args,
                        spec_replaced(
                            path,
                            spec_placeholder(p.param_name),
                            percent_encoding_of(vs[0]),
                        ),
                        query,
                        headers,
                    )
                }
            } else if p.location == "query"@ {
                spec_bind_params(rest, args, path, query + spec_pairs_for(p.param_name, vs), headers)
            } else if p.location == "header"@ {
                spec_bind_params(rest, args, path, query, headers + spec_pairs_for(p.param_name, vs))
            } else {
                spec_bind_params(rest, args, path, query, headers)
            },
        }
    }
}

/// The binder on a whole operation: its path template and declared
/// parameters against the supplied values.
pub open spec fn spec_bind(op: OperationView, args: Seq<(Seq<char>, Seq<Seq<char>>)>) -> Result<
    BoundParts,
    CliErrorView,
> {
    spec_bind_params(op.params, args, op.path, Seq::empty(), Seq::empty())
}

/// Clones a vector of strings.
fn clone_string_vec(v: &Vec<String>) -> (r: Vec<String>)
    ensures
        r@ == v@,
{
    let mut r: Vec<String> = Vec::new();
    let mut j: usize = 0;
    while j < v.len()
        invariant
            j <= v.len(),
            r@ == v@.take(j as int),
        decreases v.len() - j,
    {
        r.push(v[j].clone());
        proof {
            assert(v@.take(j + 1) =~= v@.take(j as int).push(v@[j as int]));
        }
        j += 1;
    }
    proof {
        assert(v@.take(v@.len() as int) =~= v@);
    }
    r
}

/// Resolves one parameter's values from the supplied arguments.
fn resolve_param(p: &ParamDef, args: &ArgValues) -> (r: Result<Option<Vec<String>>, CliError>)
    ensures
        match r {
            Ok(opt) => match opt {
                None => spec_resolve(p@, args@) is Missing,
                Some(vs) => spec_resolve(p@, args@) == ResolvedParam::Values(
                    vs@.map_values(|s: String| s@),
                ),
            },
            Err(e) => spec_resolve(p@, args@) is BadList && e == CliError::InvalidJsonList,
        },
{
    let looked = args.get(p.name.as_str());
    match looked {
        None => Ok(None),
        Some(vs0) => {
            if vs0.len() == 0 {
                return Ok(None);
            }
            let vals: Vec<String> = if p.is_array {
                clone_string_vec(vs0)
            } else {
                let mut one: Vec<String> = Vec::new();
                one.push(vs0[0].clone());
                one
            };
            proof {
                if !p.is_array {
                    assert(vals@.map_values(|s: String| s@) =~= seq![vs0@[0]@]);
                    assert(vs0@.map_values(|s: String| s@)[0] == vs0@[0]@);
                }
            }
            if p.is_array && vals.len() == 1 {
                let t = trim_start(vals[0].as_str());
                if starts_with(t, "[") {
                    match parse_json_list(vals[0].as_str()) {
                        None => {
                            return Err(CliError::InvalidJsonList);
                        },
                        Some(xs) => {
                            return Ok(Some(xs));
                        },
                    }
                }
            }
            Ok(Some(vals))
        },
    }
}

/// Builds the placeholder token `{name}`.
fn make_placeholder(name: &str) -> (r: String)
    ensures
        r@ == spec_placeholder(name@),
{
    "{".to_owned().concat(name).concat("}")
}

/// Appends one pair per value under `key`.
fn push_pairs(dst: &mut Vec<(String, String)>, key: &String, vals: &Vec<String>)
    ensures
        pairs_view(final(dst)@) == pairs_view(old(dst)@) + spec_pairs_for(
            key@,
            vals@.map_values(|s: String| s@),
        ),
{
    let ghost vs = vals@.map_values(|s: String| s@);
    let mut j: usize = 0;
    proof {
        assert(pairs_view(dst@) + spec_pairs_for(key@, vs.take(0)) =~= pairs_view(dst@));
    }
    while j < vals.len()
        invariant
            j <= vals.len(),
            vs == vals@.map_values(|s: String| s@),
            vs.len() == vals.len(),
            pairs_view(dst@) == pairs_view(old(dst)@) + spec_pairs_for(key@, vs.take(j as int)),
        decreases vals.len() - j,
    {
        let ghost before = dst@;
        dst.push((key.clone(), vals[j].clone()));
        proof {
            assert(pairs_view(dst@) =~= pairs_view(before) + seq![(key@, vs[j as int])]);
            assert(spec_pairs_for(key@, vs.take(j + 1)) =~= spec_pairs_for(
                key@,
                vs.take(j as int),
            ) + seq![(key@, vs[j as int])]);
            assert(pairs_view(old(dst)@) + spec_pairs_for(key@, vs.take(j + 1)) =~= (pairs_view(
                old(dst)@,
            ) + spec_pairs_for(key@, vs.take(j as int))) + seq![(key@, vs[j as int])]);
        }
        j += 1;
    }
    proof {
        assert(vs.take(vs.len() as int) =~= vs);
    }
}

/// Binds the supplied values to one operation: the resolved path, the
/// query pairs and the extra header pairs, or the first failure, before
/// anything is sent. Every declared path parameter must resolve to a
/// value — a template is never sent with such a placeholder unresolved.
pub fn build_request_parts(op: &Operation, args: &ArgValues) -> (r: Result<
    (String, Vec<(String, String)>, Vec<(String, String)>),
    CliError,
>)
    ensures
        match r {
            Ok(t) => spec_bind(op@, args@) == Ok::<BoundParts, CliErrorView>(
                (BoundParts { path: t.0@, query: pairs_view(t.1@), headers: pairs_view(t.2@) }),
            ),
            Err(e) => spec_bind(op@, args@) == Err::<BoundParts, CliErrorView>(e@),
        },
{
    let ghost ps = op@.params;
    let ghost argsv = args@;
    let mut path: String = op.path.clone();
    let mut query: Vec<(String, String)> = Vec::new();
    let mut headers: Vec<(String, String)> = Vec::new();
    proof {
        assert(ps.skip(0) =~= ps);
        assert(pairs_view(query@) =~= Seq::<(Seq<char>, Seq<char>)>::empty());
        assert(pairs_view(headers@) =~= Seq::<(Seq<char>, Seq<char>)>::empty());
    }
    let mut i: usize = 0;
    while i < op.params.len()
        invariant
            i <= op.params.len(),
            ps == op@.params,
            argsv == args@,
            ps.len() == op.params.len(),
            forall|j: int| 0 <= j < ps.len() ==> ps[j] == op.params[j]@,
            spec_bind_params(
                ps.skip(i as int),
                argsv,
                path@,
                pairs_view(query@),
                pairs_view(headers@),
            ) == spec_bind(op@, argsv),
        decreases op.params.len() - i,
    {
        let p = &op.params[i];
        let ghost rest = ps.skip(i as int);
        proof {
            assert(rest[0] == p@);
            assert(rest.skip(1) =~= ps.skip(i + 1));
        }
        let resolved = match resolve_param(p, args) {
            Ok(opt) => opt,
            Err(e) => {
                return Err(e);
            },
        };
        match resolved {
            None => {
                if p.required {
                    return Err(CliError::MissingRequiredParam { flag: p.flag.clone() });
                }
                if crate::text::str_eq(p.location.as_str(), "path") {
                    return Err(CliError::MissingPathValue { flag: p.flag.clone() });
                }
            },
            Some(vals) => {
                let ghost vsv = vals@.map_values(|s: String| s@);
                if crate::text::str_eq(p.location.as_str(), "path") {
                    if vals.len() == 0 {
                        return Err(CliError::MissingPathValue { flag: p.flag.clone() });
                    }
                    let encoded = percent_encode(vals[0].as_str());
                    let token = make_placeholder(p.param_name.as_str());
                    path = replace_all(path.as_str(), token.as_str(), encoded.as_str());
                    proof {
                        assert(vsv[0] == vals@[0]@);
                    }
                } else if crate::text::str_eq(p.location.as_str(), "query") {
                    push_pairs(&mut query, &p.param_name, &vals);
                } else if crate::text::str_eq(p.location.as_str(), "header") {
                    push_pairs(&mut headers, &p.param_name, &vals);
                }
            },
        }
        i += 1;
    }
    proof {
        assert(ps.skip(i as int) =~= Seq::<ParamDefView>::empty());
    }
    Ok((path, query, headers))
}

/// The fold fails, whatever was accumulated so far, whenever some
/// parameter is required and missing.
proof fn lemma_missing_required_fails_fold(
    params: Seq<ParamDefView>,
    args: Seq<(Seq<char>, Seq<Seq<char>>)>,
    path: Seq<char>,
    query: Seq<(Seq<char>, Seq<char>)>,
    headers: Seq<(Seq<char>, Seq<char>)>,
)
    requires
        exists|j: int|
            0 <= j < params.len() && params[j].required && #[trigger] spec_resolve(
                params[j],
                args,
            ) is Missing,
    ensures
        spec_bind_params(params, args, path, query, headers) is Err,
    decreases params.len(),
{
    let j = choose|j: int|
        0 <= j < params.len() && params[j].required && #[trigger] spec_resolve(
            params[j],
            args,
        ) is Missing;
    let p = params[0];
    let rest = params.skip(1);
    if j > 0 {
        assert(rest[j - 1] == params[j]);
    }
    match spec_resolve(p, args) {
        ResolvedParam::Missing => {
            if !p.required && p.location != "path"@ {
                lemma_missing_required_fails_fold(rest, args, path, query, headers);
            }
        },
        ResolvedParam::BadList => {},
        ResolvedParam::Values(vs) => {
            if p.location == "path"@ {
                if vs.len() > 0 {
                    lemma_missing_required_fails_fold(
                        rest,
                        args,
                        spec_replaced(path, spec_placeholder(p.param_name), percent_encoding_of(vs[0])),
                        query,
                        headers,
                    );
                }
            } else if p.location == "query"@ {
                lemma_missing_required_fails_fold(
                    rest,
                    args,
                    path,
                    query + spec_pairs_for(p.param_name, vs),
                    headers,
                );
            } else if p.location == "header"@ {
                lemma_missing_required_fails_fold(
                    rest,
                    args,
                    path,
                    query,
                    headers + spec_pairs_for(p.param_name, vs),
                );
            } else {
                lemma_missing_required_fails_fold(rest, args, path, query, headers);
            }
        },
    }
}

/// Law: binding fails whenever a required parameter has no supplied
/// value. Since binding precedes execution, no request is built or sent.
pub proof fn lemma_missing_required_fails(
    op: OperationView,
    args: Seq<(Seq<char>, Seq<Seq<char>>)>,
)
    requires
        exists|j: int|
            0 <= j < op.params.len() && op.params[j].required && #[trigger] spec_resolve(
                op.params[j],
                args,
            ) is Missing,
    ensures
        spec_bind(op, args) is Err,
{
    lemma_missing_required_fails_fold(op.params, args, op.path, Seq::empty(), Seq::empty());
}

/// The fold sees the arguments only through each parameter's resolution.
proof fn lemma_bind_same_resolution_fold(
    params: Seq<ParamDefView>,
    args1: Seq<(Seq<char>, Seq<Seq<char>>)>,
    args2: Seq<(Seq<char>, Seq<Seq<char>>)>,
    path: Seq<char>,
    query: Seq<(Seq<char>, Seq<char>)>,
    headers: Seq<(Seq<char>, Seq<char>)>,
)
    requires
        forall|j: int|
            0 <= j < params.len() ==> #[trigger] spec_resolve(params[j], args1) == spec_resolve(
                params[j],
                args2,
            ),
    ensures
        spec_bind_params(params, args1, path, query, headers) == spec_bind_params(
            params,
            args2,
            path,
            query,
            headers,
        ),
    decreases params.len(),
{
    if params.len() > 0 {
        let p = params[0];
        let rest = params.skip(1);
        assert(spec_resolve(p, args1) == spec_resolve(p, args2));
        assert forall|j: int| 0 <= j < rest.len() implies #[trigger] spec_resolve(rest[j], args1)
            == spec_resolve(rest[j], args2) by {
            assert(rest[j] == params[j + 1]);
        }
        match spec_resolve(p, args1) {
            ResolvedParam::Missing => {
                if !p.required && p.location != "path"@ {
                    lemma_bind_same_resolution_fold(rest, args1, args2, path, query, headers);
                }
            },
            ResolvedParam::BadList => {},
            ResolvedParam::Values(vs) => {
                if p.location == "path"@ {
                    if vs.len() > 0 {
                        lemma_bind_same_resolution_fold(
                            rest,
                            args1,
                            args2,
                            spec_replaced(
                                path,
                                spec_placeholder(p.param_name),
                                percent_encoding_of(vs[0]),
                            ),
                            query,
                            headers,
                        );
                    }
                } else if p.location == "query"@ {
                    lemma_bind_same_resolution_fold(
                        rest,
                        args1,
                        args2,
                        path,
                        query + spec_pairs_for(p.param_name, vs),
                        headers,
                    );
                } else if p.location == "header"@ {
                    lemma_bind_same_resolution_fold(
                        rest,
                        args1,
                        args2,
                        path,
                        query,
                        headers + spec_pairs_for(p.param_name, vs),
                    );
                } else {
                    lemma_bind_same_resolution_fold(rest, args1, args2, path, query, headers);
                }
            },
        }
    }
}

/// Law: binding depends on the supplied arguments only through each
/// parameter's resolved values. In particular, an array parameter whose
/// JSON array literal flattens to the same values as a set of repeated
/// flags binds to the identical request.
pub proof fn lemma_bind_same_resolution(
    op: OperationView,
    args1: Seq<(Seq<char>, Seq<Seq<char>>)>,
    args2: Seq<(Seq<char>, Seq<Seq<char>>)>,
)
    requires
        forall|j: int|
            0 <= j < op.params.len() ==> #[trigger] spec_resolve(op.params[j], args1)
                == spec_resolve(op.params[j], args2),
    ensures
        spec_bind(op, args1) == spec_bind(op, args2),
{
    lemma_bind_same_resolution_fold(op.params, args1, args2, op.path, Seq::empty(), Seq::empty());
}

/// Law: a query-location parameter whose values resolve to `vs`
/// contributes the pairs `(wire name, v)` for each `v` in `vs`, in
/// order; on a one-parameter operation the bound query is exactly that
/// list, whichever form the values were supplied in.
pub proof fn lemma_array_expansion(
    op: OperationView,
    args: Seq<(Seq<char>, Seq<Seq<char>>)>,
    vs: Seq<Seq<char>>,
)
    requires
        op.params.len() == 1,
        op.params[0].location == "query"@,
        spec_resolve(op.params[0], args) == ResolvedParam::Values(vs),
    ensures
        spec_bind(op, args) == Ok::<BoundParts, CliErrorView>(
            (BoundParts {
                path: op.path,
                query: spec_pairs_for(op.params[0].param_name, vs),
                headers: Seq::empty(),
            }),
        ),
{
    reveal_strlit("path");
    reveal_strlit("query");
    assert("query"@.len() == 5);
    assert("path"@.len() == 4);
    assert("query"@ != "path"@);
    let p = op.params[0];
    let rest = op.params.skip(1);
    assert(rest.len() == 0);
    assert(Seq::<(Seq<char>, Seq<char>)>::empty() + spec_pairs_for(p.param_name, vs)
        =~= spec_pairs_for(p.param_name, vs));
    assert(spec_bind_params(
        rest,
        args,
        op.path,
        Seq::<(Seq<char>, Seq<char>)>::empty() + spec_pairs_for(p.param_name, vs),
        Seq::empty(),
    ) == Ok::<BoundParts, CliErrorView>(
        (BoundParts {
            path: op.path,
            query: spec_pairs_for(p.param_name, vs),
            headers: Seq::empty(),
        }),
    ));
}

} // verus!
