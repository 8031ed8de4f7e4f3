//! Credential handling: the auth mode, its selection rule, which
//! credential accompanies each physical call, and the header pairs a
//! chosen credential contributes.

use vstd::prelude::*;

use crate::text::{spec_starts_with_ignore_case, starts_with_ignore_case, str_eq};

verus! {

/// How credentials are selected for a call.
#[derive(Debug, Clone, Copy, PartialEq, Eq, Structural)]
pub enum AuthMode {
    ApiKey,
    Token,
    Auto,
}

/// The credential header set attached to one physical call.
#[derive(Debug, Clone, Copy, PartialEq, Eq, Structural)]
pub enum AuthChoice {
    UseApiKey,
    UseToken,
}

/// The credentials available to the process: an optional API key and an
/// optional bearer token.
#[derive(Debug, Clone)]
pub struct Credentials {
    pub api_key: Option<String>,
    pub token: Option<String>,
}

/// The mode an explicit flag value and the available credentials select:
/// a recognized flag wins; otherwise `Token` when only a token is
/// configured, and `Auto` in every other case.
pub open spec fn spec_auth_mode(raw: Option<Seq<char>>, has_key: bool, has_token: bool) -> AuthMode {
    if raw == Some("api-key"@) {
        AuthMode::ApiKey
    } else if raw == Some("token"@) {
        AuthMode::Token
    } else if raw == Some("auto"@) {
        AuthMode::Auto
    } else if !has_key && has_token {
        AuthMode::Token
    } else {
        AuthMode::Auto
    }
}

/// Selects the auth mode from the explicit flag value and the available
/// credentials.
pub fn parse_auth_mode(raw: Option<&String>, api_key: Option<&String>, token: Option<&String>) -> (m:
    AuthMode)
    ensures
        m == spec_auth_mode(
            match raw {
                Some(s) => Some(s@),
                None => None,
            },
            api_key is Some,
            token is Some,
        ),
{
    match raw {
        Some(s) => {
            if str_eq(s.as_str(), "api-key") {
                AuthMode::ApiKey
            } else if str_eq(s.as_str(), "token") {
                AuthMode::Token
            } else if str_eq(s.as_str(), "auto") {
                AuthMode::Auto
            } else if api_key.is_none() && token.is_some() {
                AuthMode::Token
            } else {
                AuthMode::Auto
            }
        },
        None => {
            if api_key.is_none() && token.is_some() {
                AuthMode::Token
            } else {
                AuthMode::Auto
            }
        },
    }
}

/// The credential set of the first physical call: explicit modes use
/// their credential; `Auto` tries the API key when one is configured and
/// the token (present or not) otherwise.
pub open spec fn spec_first_choice(mode: AuthMode, has_key: bool) -> AuthChoice {
    match mode {
        AuthMode::ApiKey => AuthChoice::UseApiKey,
        AuthMode::Token => AuthChoice::UseToken,
        AuthMode::Auto => if has_key {
            AuthChoice::UseApiKey
        } else {
            AuthChoice::UseToken
        },
    }
}

/// Selects the credential set of the first physical call.
pub fn first_choice(mode: AuthMode, creds: &Credentials) -> (c: AuthChoice)
    ensures
        c == spec_first_choice(mode, creds.api_key is Some),
{
    match mode {
        AuthMode::ApiKey => AuthChoice::UseApiKey,
        AuthMode::Token => AuthChoice::UseToken,
        AuthMode::Auto => if creds.api_key.is_some() {
            AuthChoice::UseApiKey
        } else {
            AuthChoice::UseToken
        },
    }
}

/// Whether a first response triggers the one automatic credential
/// fallback: `Auto` mode tried the API key, the status is 401 or 403,
/// and a token is also configured.
pub open spec fn spec_wants_token_fallback(
    mode: AuthMode,
    has_key: bool,
    has_token: bool,
    status: u16,
) -> bool {
    mode is Auto && has_key && (status == 401 || status == 403) && has_token
}

/// Decides the automatic credential fallback from the first status.
pub fn wants_token_fallback(mode: AuthMode, creds: &Credentials, status: u16) -> (r: bool)
    ensures
        r == spec_wants_token_fallback(mode, creds.api_key is Some, creds.token is Some, status),
{
    match mode {
        AuthMode::Auto => creds.api_key.is_some() && (status == 401 || status == 403)
            && creds.token.is_some(),
        _ => false,
    }
}

/// The authorization header value for a raw token: the token itself when
/// it already carries a `bearer ` prefix (in any ASCII case), and
/// `Bearer ` prepended otherwise.
pub open spec fn spec_bearer_value(token: Seq<char>) -> Seq<char> {
    if spec_starts_with_ignore_case(token, "bearer "@) {
        token
    } else {
        "Bearer "@ + token
    }
}

/// Builds the authorization header value for a raw token.
pub fn bearer_value(token: &str) -> (r: String)
    ensures
        r@ == spec_bearer_value(token@),
{
    if starts_with_ignore_case(token, "bearer ") {
        token.to_owned()
    } else {
        "Bearer ".to_owned().concat(token)
    }
}

/// The header pairs a chosen credential contributes to one call: the
/// API key under `signoz-api-key`, or the token under `authorization`
/// with its `Bearer ` prefix; nothing when the chosen credential is
/// absent.
pub open spec fn spec_credential_pairs(choice: AuthChoice, creds: Credentials) -> Seq<
    (Seq<char>, Seq<char>),
> {
    match choice {
        AuthChoice::UseApiKey => match creds.api_key {
            Some(k) => seq![("signoz-api-key"@, k@)],
            None => Seq::empty(),
        },
        AuthChoice::UseToken => match creds.token {
            Some(t) => seq![("authorization"@, spec_bearer_value(t@))],
            None => Seq::empty(),
        },
    }
}

/// Builds the header pairs of the chosen credential.
pub fn credential_headers(choice: AuthChoice, creds: &Credentials) -> (r: Vec<(String, String)>)
    ensures
        crate::args::pairs_view(r@) == spec_credential_pairs(choice, *creds),
{
    let mut out: Vec<(String, String)> = Vec::new();
    match choice {
        AuthChoice::UseApiKey => {
            match &creds.api_key {
                Some(k) => {
                    out.push(("signoz-api-key".to_owned(), k.clone()));
                },
                None => {},
            }
        },
        AuthChoice::UseToken => {
            match &creds.token {
                Some(t) => {
                    out.push(("authorization".to_owned(), bearer_value(t.as_str())));
                },
                None => {},
            }
        },
    }
    proof {
        assert(crate::args::pairs_view(out@) =~= spec_credential_pairs(choice, *creds));
    }
    out
}

/// The full header list of one physical call: the chosen credential's
/// pairs, then every explicitly supplied header — merged in on top for
/// every attempt. The transport applies them in order, so an explicit
/// header of the same name overrides the credential's.
pub fn headers_for_call(
    choice: AuthChoice,
    creds: &Credentials,
    extra: &Vec<(String, String)>,
) -> (r: Vec<(String, String)>)
    ensures
        crate::args::pairs_view(r@) == spec_credential_pairs(choice, *creds)
            + crate::args::pairs_view(extra@),
{
    let mut out = credential_headers(choice, creds);
    let ghost base = out@;
    let mut i: usize = 0;
    proof {
        assert(crate::args::pairs_view(extra@.take(0)) =~= Seq::<(Seq<char>, Seq<char>)>::empty());
        assert(crate::args::pairs_view(base) + crate::args::pairs_view(extra@.take(0))
            =~= crate::args::pairs_view(base));
    }
    while i < extra.len()
        invariant
            i <= extra.len(),
            crate::args::pairs_view(base) == spec_credential_pairs(choice, *creds),
            crate::args::pairs_view(out@) == crate::args::pairs_view(base)
                + crate::args::pairs_view(extra@.take(i as int)),
        decreases extra.len() - i,
    {
        let ghost before = out@;
        let pair = &extra[i];
        out.push((pair.0.clone(), pair.1.clone()));
        proof {
            assert(crate::args::pairs_view(out@) =~= crate::args::pairs_view(before) + seq![
                (extra@[i as int].0@, extra@[i as int].1@),
            ]);
            assert(crate::args::pairs_view(extra@.take(i + 1)) =~= crate::args::pairs_view(
                extra@.take(i as int),
            ) + seq![(extra@[i as int].0@, extra@[i as int].1@)]);
            assert(crate::args::pairs_view(base) + crate::args::pairs_view(extra@.take(i + 1))
                =~= (crate::args::pairs_view(base) + crate::args::pairs_view(
                extra@.take(i as int),
            )) + seq![(extra@[i as int].0@, extra@[i as int].1@)]);
        }
        i += 1;
    }
    proof {
        assert(extra@.take(extra@.len() as int) =~= extra@);
    }
    out
}

} // verus!
