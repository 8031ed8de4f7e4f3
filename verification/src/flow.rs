//! The request flow: one logical invocation as a state machine. The
//! driver asks which physical call to make next (path and credential
//! choice), performs it, and hands the response back; the machine
//! decides the one automatic credential fallback, the one version
//! fallback, which response is final, and whether the final sanity
//! check rejects it. At most four physical calls are ever requested.

use vstd::prelude::*;

use crate::auth::{
    spec_first_choice, spec_wants_token_fallback, AuthChoice, AuthMode, Credentials, first_choice,
    wants_token_fallback,
};
use crate::errors::CliError;
use crate::response::{
    fallback_path, is_html_response, should_retry_v1, spec_fallback_path, spec_is_api_path,
    spec_is_html, ensure_api_response, HttpResponse,
};
use crate::text::spec_starts_with;

verus! {

/// Where the flow stands. The fallback states carry the settled primary
/// response, to fall back on when the retry is also HTML.
pub enum FlowState {
    /// Awaiting the response of the first auth attempt.
    FirstAuth,
    /// Awaiting the response of the token retry after a 401/403.
    SecondAuth,
    /// Awaiting the first auth attempt against the `/api/v1/` path.
    FallbackFirstAuth(HttpResponse),
    /// Awaiting the token retry against the `/api/v1/` path.
    FallbackSecondAuth(HttpResponse),
    /// The final response is settled.
    Settled(HttpResponse),
}

/// One physical call the driver should make: against which path, and
/// carrying which credential.
pub struct PlannedCall {
    pub path: String,
    pub choice: AuthChoice,
}

/// Settling the auth phase: an HTML response to a `/api/v2/` path opens
/// the version fallback; anything else is final.
pub open spec fn spec_settle_path(path: Seq<char>, resp: HttpResponse) -> FlowState {
    if spec_starts_with(path, "/api/v2/"@) && spec_is_html(resp) {
        FlowState::FallbackFirstAuth(resp)
    } else {
        FlowState::Settled(resp)
    }
}

/// One logical invocation in progress.
pub struct RequestFlow {
    pub mode: AuthMode,
    pub creds: Credentials,
    /// The bound request path of the invocation.
    pub path: String,
    /// Physical calls answered so far.
    pub calls_made: u8,
    pub state: FlowState,
}

impl RequestFlow {
    /// Well-formedness: the call count matches the state, and the
    /// fallback states arise only on a `/api/v2/` path.
    pub open spec fn wf(self) -> bool {
        &&& match self.state {
            FlowState::FirstAuth => self.calls_made == 0,
            FlowState::SecondAuth => self.calls_made == 1,
            FlowState::FallbackFirstAuth(_) => 1 <= self.calls_made <= 2,
            FlowState::FallbackSecondAuth(_) => 2 <= self.calls_made <= 3,
            FlowState::Settled(_) => 1 <= self.calls_made <= 4,
        }
        &&& match self.state {
            FlowState::FallbackFirstAuth(_) => spec_starts_with(self.path@, "/api/v2/"@),
            FlowState::FallbackSecondAuth(_) => spec_starts_with(self.path@, "/api/v2/"@),
            _ => true,
        }
    }

    /// Settling the auth phase: an HTML response to a `/api/v2/` path
    /// opens the version fallback; anything else is final.
    pub open spec fn spec_settle(self, resp: HttpResponse) -> FlowState {
        spec_settle_path(self.path@, resp)
    }

    /// The retry replaces the primary response only when it is not HTML.
    pub open spec fn spec_pick_final(primary: HttpResponse, retry: HttpResponse) -> HttpResponse {
        if !spec_is_html(retry) {
            retry
        } else {
            primary
        }
    }

    /// The state one response moves the flow to.
    pub open spec fn spec_step(self, resp: HttpResponse) -> FlowState {
        let wants_second = spec_wants_token_fallback(
            self.mode,
            self.creds.api_key is Some,
            self.creds.token is Some,
            resp.status,
        );
        match self.state {
            FlowState::FirstAuth => if wants_second {
                FlowState::SecondAuth
            } else {
                self.spec_settle(resp)
            },
            FlowState::SecondAuth => self.spec_settle(resp),
            FlowState::FallbackFirstAuth(primary) => if wants_second {
                FlowState::FallbackSecondAuth(primary)
            } else {
                FlowState::Settled(Self::spec_pick_final(primary, resp))
            },
            FlowState::FallbackSecondAuth(primary) => FlowState::Settled(
                Self::spec_pick_final(primary, resp),
            ),
            FlowState::Settled(r) => FlowState::Settled(r),
        }
    }

    /// The flow after one response.
    pub open spec fn spec_after(self, resp: HttpResponse) -> RequestFlow {
        RequestFlow {
            mode: self.mode,
            creds: self.creds,
            path: self.path,
            calls_made: (self.calls_made + 1) as u8,
            state: self.spec_step(resp),
        }
    }

    /// The call the flow asks for next, as (path, credential choice);
    /// None once settled.
    pub open spec fn spec_next_call(self) -> Option<(Seq<char>, AuthChoice)> {
        let first = spec_first_choice(self.mode, self.creds.api_key is Some);
        match self.state {
            FlowState::FirstAuth => Some((self.path@, first)),
            FlowState::SecondAuth => Some((self.path@, AuthChoice::UseToken)),
            FlowState::FallbackFirstAuth(_) => Some((spec_fallback_path(self.path@), first)),
            FlowState::FallbackSecondAuth(_) => Some(
                (spec_fallback_path(self.path@), AuthChoice::UseToken),
            ),
            FlowState::Settled(_) => None,
        }
    }

    /// Whether the final sanity check rejects the settled response.
    pub open spec fn spec_sanity_fails(self) -> bool {
        self.state matches FlowState::Settled(r) && spec_is_api_path(self.path@) && spec_is_html(
            r,
        )
    }

    /// Starts a flow for one bound request.
    pub fn new(mode: AuthMode, creds: Credentials, path: String) -> (f: RequestFlow)
        ensures
            f.wf(),
            f.state is FirstAuth,
            f.mode == mode,
            f.creds == creds,
            f.path == path,
            f.calls_made == 0,
    {
        RequestFlow { mode, creds, path, calls_made: 0, state: FlowState::FirstAuth }
    }

    /// The next physical call to make, or None once the flow settled.
    pub fn next_call(&self) -> (r: Option<PlannedCall>)
        requires
            self.wf(),
        ensures
            match r {
                Some(pc) => self.spec_next_call() == Some((pc.path@, pc.choice)),
                None => self.spec_next_call() is None,
            },
    {
        match &self.state {
            FlowState::FirstAuth => Some(
                PlannedCall {
                    path: self.path.clone(),
                    choice: first_choice(self.mode, &self.creds),
                },
            ),
            FlowState::SecondAuth => Some(
                PlannedCall { path: self.path.clone(), choice: AuthChoice::UseToken },
            ),
            FlowState::FallbackFirstAuth(_) => Some(
                PlannedCall {
                    path: fallback_path(self.path.as_str()),
                    choice: first_choice(self.mode, &self.creds),
                },
            ),
            FlowState::FallbackSecondAuth(_) => Some(
                PlannedCall {
                    path: fallback_path(self.path.as_str()),
                    choice: AuthChoice::UseToken,
                },
            ),
            FlowState::Settled(_) => None,
        }
    }

    /// Feeds the response of the call `next_call` asked for.
    pub fn on_response(self, resp: HttpResponse) -> (r: RequestFlow)
        requires
            self.wf(),
            !(self.state is Settled),
        ensures
            r == self.spec_after(resp),
            r.wf(),
    {
        let RequestFlow { mode, creds, path, calls_made, state } = self;
        let wants_second = wants_token_fallback(mode, &creds, resp.status);
        let next = match state {
            FlowState::FirstAuth => {
                if wants_second {
                    FlowState::SecondAuth
                } else {
                    Self::settle(&path, resp)
                }
            },
            FlowState::SecondAuth => Self::settle(&path, resp),
            FlowState::FallbackFirstAuth(primary) => {
                if wants_second {
                    FlowState::FallbackSecondAuth(primary)
                } else {
                    FlowState::Settled(Self::pick_final(primary, resp))
                }
            },
            FlowState::FallbackSecondAuth(primary) => FlowState::Settled(
                Self::pick_final(primary, resp),
            ),
            FlowState::Settled(r) => FlowState::Settled(r),
        };
        RequestFlow { mode, creds, path, calls_made: calls_made + 1, state: next }
    }

    /// Settles the auth phase for `path` with `resp`.
    fn settle(path: &String, resp: HttpResponse) -> (r: FlowState)
        ensures
            r == spec_settle_path(path@, resp),
    {
        if should_retry_v1(path.as_str(), &resp) {
            FlowState::FallbackFirstAuth(resp)
        } else {
            FlowState::Settled(resp)
        }
    }

    /// Picks the final response between the primary and the retry.
    fn pick_final(primary: HttpResponse, retry: HttpResponse) -> (r: HttpResponse)
        ensures
            r == Self::spec_pick_final(primary, retry),
    {
        if !is_html_response(&retry) {
            retry
        } else {
            primary
        }
    }

    /// Hands the settled response out, after the final sanity check: a
    /// response to an API path that is still HTML is a configuration
    /// error, whatever its status code.
    pub fn into_result(self) -> (r: Result<HttpResponse, CliError>)
        requires
            self.wf(),
            self.state is Settled,
        ensures
            r is Err <==> self.spec_sanity_fails(),
            (r matches Err(e) ==> e@ == crate::errors::CliErrorView::HtmlResponse(self.path@)),
            (r matches Ok(resp) ==> self.state == FlowState::Settled(resp)),
    {
        let RequestFlow { mode: _, creds: _, path, calls_made: _, state } = self;
        match state {
            FlowState::Settled(resp) => {
                match ensure_api_response(path.as_str(), &resp) {
                    Ok(()) => Ok(resp),
                    Err(e) => Err(e),
                }
            },
            _ => {
                proof {
                    assert(false);
                }
                Err(CliError::InvalidUrl)
            },
        }
    }
}

/// Law: a flow never answers more than four physical calls: up to two
/// auth attempts, each axis repeated once more for the version fallback.
pub proof fn lemma_at_most_four_calls(f: RequestFlow)
    requires
        f.wf(),
    ensures
        f.calls_made <= 4,
        f.state is Settled ==> f.spec_next_call() is None,
{
}

/// Law: under `Auto` with an API key configured and no token, every
/// first response ends the auth phase at once, whatever its status:
/// exactly one call is made before version-fallback evaluation.
pub proof fn lemma_auto_without_token_single_call(f: RequestFlow, resp: HttpResponse)
    requires
        f.state is FirstAuth,
        f.mode is Auto,
        f.creds.token is None,
    ensures
        !(f.spec_after(resp).state is SecondAuth),
{
}

/// Law: under `Auto` with both credentials configured, a first status of
/// 401 or 403 triggers exactly one more auth call, against the same path
/// and carrying only the bearer token; after its response the auth phase
/// is over. Any other first status ends the auth phase at once.
pub proof fn lemma_auto_escalates_once(f: RequestFlow, resp: HttpResponse, second: HttpResponse)
    requires
        f.state is FirstAuth,
        f.mode is Auto,
        f.creds.api_key is Some,
        f.creds.token is Some,
    ensures
        (resp.status == 401 || resp.status == 403) ==> {
            &&& f.spec_after(resp).state is SecondAuth
            &&& f.spec_after(resp).spec_next_call() == Some((f.path@, AuthChoice::UseToken))
            &&& !(f.spec_after(resp).spec_after(second).state is SecondAuth)
        },
        !(resp.status == 401 || resp.status == 403) ==> !(f.spec_after(resp).state is SecondAuth),
{
}

/// A `/api/v2/` path is an API path.
pub proof fn lemma_v2_path_is_api_path(p: Seq<char>)
    requires
        spec_starts_with(p, "/api/v2/"@),
    ensures
        spec_is_api_path(p),
{
    reveal_strlit("/api/v2/");
    reveal_strlit("/api/");
    assert(p.subrange(0, 5) =~= "/api/"@);
}

/// Law: on a `/api/v2/` path whose auth phase settled in one call, an
/// HTML response triggers exactly one retry, against the `/api/v1/`
/// path. A non-HTML retry response becomes the final result; an HTML one
/// leaves the original response final, and the sanity check then rejects
/// the flow's outcome.
pub proof fn lemma_version_fallback(f: RequestFlow, resp: HttpResponse, retry: HttpResponse)
    requires
        f.state is FirstAuth,
        spec_starts_with(f.path@, "/api/v2/"@),
        !spec_wants_token_fallback(
            f.mode,
            f.creds.api_key is Some,
            f.creds.token is Some,
            resp.status,
        ),
        !spec_wants_token_fallback(
            f.mode,
            f.creds.api_key is Some,
            f.creds.token is Some,
            retry.status,
        ),
        spec_is_html(resp),
    ensures
        f.spec_after(resp).state == FlowState::FallbackFirstAuth(resp),
        (f.spec_after(resp).spec_next_call() matches Some(c) && c.0 == spec_fallback_path(
            f.path@,
        )),
        !spec_is_html(retry) ==> f.spec_after(resp).spec_after(retry).state == FlowState::Settled(
            retry,
        ),
        spec_is_html(retry) ==> f.spec_after(resp).spec_after(retry).state == FlowState::Settled(
            resp,
        ) && f.spec_after(resp).spec_after(retry).spec_sanity_fails(),
{
    if spec_is_html(retry) {
        lemma_v2_path_is_api_path(f.path@);
    }
}

} // verus!
