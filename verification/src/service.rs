//! The shared authentication core behind every transport: one service
//! object owning the discovery URL, the validation policy and the
//! key-set cache.
//!
//! A transport adapter drives one request in at most three steps:
//! [`AuthenticationService::plan`] reads the credential and says
//! whether a fetch is needed; the adapter performs the network round
//! trip only when told to and hands the outcome to
//! [`AuthenticationService::ingest_fetch`]; and
//! [`AuthenticationService::authorize_token`] settles the request.
//! Every decision is taken here; the adapter only moves bytes.

use vstd::prelude::*;

use crate::claims::UserContext;
use crate::claims::UserContextV;
use crate::credential::extract_credential;
use crate::credential::extract_credential_spec;
use crate::credential::opt_bytes_view;
use crate::credential::CredentialStep;
use crate::credential::CredentialStepV;
use crate::keys::ingest_spec;
use crate::keys::needs_refresh_spec;
use crate::keys::opt_text_view;
use crate::keys::state_wf;
use crate::keys::KeySet;
use crate::keys::RefreshState;
use crate::keys::RefreshStateV;
use crate::outcome::AuthError;
use crate::outcome::FetchErrorKind;
use crate::validate::validate_spec;
use crate::validate::validate_token;
use crate::validate::ValidationPolicy;
use crate::validate::ValidationPolicyV;

verus! {

/// How one request leaves the interceptor: untouched and anonymous,
/// authenticated with its identity attached, or rejected.
#[derive(Debug, Clone, PartialEq, Eq)]
pub enum AuthDecision {
    /// No credential was presented; the request proceeds without an
    /// identity and downstream policy decides what that means.
    PassThrough,
    /// The token verified against a published key and the claims
    /// passed the policy.
    Authenticated(UserContext),
    /// A terminal failure; the transport turns it into its native
    /// unauthorized response.
    Rejected(AuthError),
}

pub enum AuthDecisionV {
    PassThrough,
    Authenticated(UserContextV),
    Rejected(AuthError),
}

impl View for AuthDecision {
    type V = AuthDecisionV;

    open spec fn view(&self) -> AuthDecisionV {
        match self {
            AuthDecision::PassThrough => AuthDecisionV::PassThrough,
            AuthDecision::Authenticated(c) => AuthDecisionV::Authenticated(c@),
            AuthDecision::Rejected(e) => AuthDecisionV::Rejected(*e),
        }
    }
}

/// What the adapter must do next for one request.
#[derive(Debug, Clone, PartialEq, Eq)]
pub enum InterceptPlan {
    /// Decided from the credential alone: no key set was consulted and
    /// no fetch may be made on this request's account.
    Done(AuthDecision),
    /// A bearer token is present and the cached key set is fresh:
    /// validate against it.
    Validate(Vec<u8>),
    /// A bearer token is present but the cache is stale or empty: one
    /// fetch attempt first, then validate.
    FetchThenValidate(Vec<u8>),
}

pub enum InterceptPlanV {
    Done(AuthDecisionV),
    Validate(Seq<u8>),
    FetchThenValidate(Seq<u8>),
}

impl View for InterceptPlan {
    type V = InterceptPlanV;

    open spec fn view(&self) -> InterceptPlanV {
        match self {
            InterceptPlan::Done(d) => InterceptPlanV::Done(d@),
            InterceptPlan::Validate(t) => InterceptPlanV::Validate(t@),
            InterceptPlan::FetchThenValidate(t) => InterceptPlanV::FetchThenValidate(t@),
        }
    }
}

/// The service's mathematical state.
pub struct AuthenticationServiceV {
    pub jwk_set_url: Seq<char>,
    pub policy: ValidationPolicyV,
    pub ttl_seconds: u64,
    pub cache: RefreshStateV,
}

/// The shared authentication core: configuration plus the key-set
/// cache.  Construct one at startup and share it across workers; its
/// internal state is only the cache cell.
#[derive(Debug, Clone)]
pub struct AuthenticationService {
    jwk_set_url: String,
    policy: ValidationPolicy,
    ttl_seconds: u64,
    cache: RefreshState,
}

impl View for AuthenticationService {
    type V = AuthenticationServiceV;

    closed spec fn view(&self) -> AuthenticationServiceV {
        AuthenticationServiceV {
            jwk_set_url: self.jwk_set_url@,
            policy: self.policy@,
            ttl_seconds: self.ttl_seconds,
            cache: self.cache@,
        }
    }
}

/// The interceptor's first step, from the credential and the cache's
/// freshness alone: an absent credential passes through, an unusable
/// one is rejected, and a bearer token is validated — after one fetch
/// attempt when the cache is stale or empty.
pub open spec fn plan_spec(
    st: RefreshStateV,
    ttl: u64,
    header: Option<Seq<u8>>,
    now: u64,
) -> InterceptPlanV {
    match extract_credential_spec(header) {
        CredentialStepV::Anonymous => InterceptPlanV::Done(AuthDecisionV::PassThrough),
        CredentialStepV::Rejected(e) => InterceptPlanV::Done(AuthDecisionV::Rejected(e)),
        CredentialStepV::Bearer(t) => if needs_refresh_spec(st, now, ttl) {
            InterceptPlanV::FetchThenValidate(t)
        } else {
            InterceptPlanV::Validate(t)
        },
    }
}

/// The final step: with a cached key set the validator decides; with
/// none at all — only possible when no fetch ever succeeded — the
/// request is rejected for the fetch failure the adapter reports, a
/// network failure when it reports none.
pub open spec fn authorize_token_spec(
    st: RefreshStateV,
    policy: ValidationPolicyV,
    token: Seq<u8>,
    fetch_failure: Option<FetchErrorKind>,
) -> AuthDecisionV {
    match st.current {
        Some(ks) => match validate_spec(token, ks.keys, policy) {
            Ok(c) => AuthDecisionV::Authenticated(c),
            Err(e) => AuthDecisionV::Rejected(e),
        },
        None => AuthDecisionV::Rejected(
            AuthError::KeyFetchFailed(
                match fetch_failure {
                    Some(k) => k,
                    None => FetchErrorKind::Network,
                },
            ),
        ),
    }
}

impl AuthenticationService {
    /// A fresh service for one discovery URL and policy: nothing
    /// cached, so the first validating request fetches.
    pub fn new(url: String, policy: ValidationPolicy, ttl_seconds: u64) -> (r:
        AuthenticationService)
        ensures
            r@.jwk_set_url == url@,
            r@.policy == policy@,
            r@.ttl_seconds == ttl_seconds,
            r@.cache.current is None,
            r@.cache.last_refreshed == 0,
            state_wf(r@.cache),
    {
        AuthenticationService { jwk_set_url: url, policy, ttl_seconds, cache: RefreshState::empty() }
    }

    /// The configured discovery URL, for the adapter's fetch.
    pub fn jwk_set_url(&self) -> (r: &String)
        ensures
            r@ == self@.jwk_set_url,
    {
        &self.jwk_set_url
    }

    /// A snapshot of the cache cell: the current key set, if any, and
    /// the time of the last successful refresh.
    pub fn state(&self) -> (r: (Option<&KeySet>, u64))
        ensures
            match r.0 {
                Some(ks) => self@.cache.current == Some(ks@),
                None => self@.cache.current is None,
            },
            r.1 == self@.cache.last_refreshed,
    {
        (self.cache.current_keys(), self.cache.last_refreshed)
    }

    /// Whether a validating request arriving at `now` must attempt a
    /// fetch first.
    pub fn needs_refresh(&self, now: u64) -> (r: bool)
        ensures
            r == needs_refresh_spec(self@.cache, now, self@.ttl_seconds),
    {
        self.cache.needs_refresh(now, self.ttl_seconds)
    }

    /// The interceptor's first step on one request, as [`plan_spec`]
    /// describes.  `header` is the raw authorization value (HTTP
    /// header or call metadata), or `None` when the request carries
    /// none; `now` is the request's arrival time in unix seconds.
    pub fn plan(&self, header: Option<&[u8]>, now: u64) -> (r: InterceptPlan)
        ensures
            r@ == plan_spec(self@.cache, self@.ttl_seconds, opt_bytes_view(header), now),
    {
        match extract_credential(header) {
            CredentialStep::Anonymous => InterceptPlan::Done(AuthDecision::PassThrough),
            CredentialStep::Rejected(e) => InterceptPlan::Done(AuthDecision::Rejected(e)),
            CredentialStep::Bearer(t) => {
                if self.needs_refresh(now) {
                    InterceptPlan::FetchThenValidate(t)
                } else {
                    InterceptPlan::Validate(t)
                }
            },
        }
    }

    /// Ingests one fetch attempt's outcome into the cache, as
    /// [`ingest_spec`] describes: the configuration never changes, and
    /// only a parsed document replaces the key set and refresh time.
    pub fn ingest_fetch(&mut self, now: u64, body: Option<&str>) -> (r: Result<
        (),
        FetchErrorKind,
    >)
        ensures
            (final(self)@.cache, r) == ingest_spec(old(self)@.cache, now, opt_text_view(body)),
            final(self)@.jwk_set_url == old(self)@.jwk_set_url,
            final(self)@.policy == old(self)@.policy,
            final(self)@.ttl_seconds == old(self)@.ttl_seconds,
            state_wf(old(self)@.cache) ==> state_wf(final(self)@.cache),
    {
        self.cache.ingest_fetch(now, body)
    }

    /// Settles a request that presented a bearer token, as
    /// [`authorize_token_spec`] describes.  `fetch_failure` is the
    /// failure of this request's fetch attempt, if it made one and the
    /// attempt failed.
    pub fn authorize_token(&self, token: &[u8], fetch_failure: Option<FetchErrorKind>) -> (r:
        AuthDecision)
        ensures
            r@ == authorize_token_spec(self@.cache, self@.policy, token@, fetch_failure),
    {
        match self.cache.current_keys() {
            Some(ks) => match validate_token(token, ks, &self.policy) {
                Ok(c) => AuthDecision::Authenticated(c),
                Err(e) => AuthDecision::Rejected(e),
            },
            None => AuthDecision::Rejected(
                AuthError::KeyFetchFailed(
                    match fetch_failure {
                        Some(k) => k,
                        None => FetchErrorKind::Network,
                    },
                ),
            ),
        }
    }
}

/// A request with no credential is decided on the spot: it passes
/// through anonymously, and the plan never asks for a fetch or a
/// validation, whatever the cache holds and whenever it arrives.
pub proof fn lemma_anonymous_never_fetches(st: RefreshStateV, ttl: u64, now: u64)
    ensures
        plan_spec(st, ttl, None, now) == InterceptPlanV::Done(AuthDecisionV::PassThrough),
{
}

/// A present credential that does not parse — malformed, or a scheme
/// other than `Bearer` — is rejected on the spot: the plan never asks
/// for a fetch or a validation, so no signature is ever examined.
pub proof fn lemma_bad_credential_decided_early(
    st: RefreshStateV,
    ttl: u64,
    h: Seq<u8>,
    now: u64,
    e: AuthError,
)
    requires
        crate::credential::parse_header_spec(h) == Err::<Seq<u8>, AuthError>(e),
    ensures
        plan_spec(st, ttl, Some(h), now) == InterceptPlanV::Done(AuthDecisionV::Rejected(e)),
{
}

/// The staleness window as the interceptor sees it: once a fetch
/// outcome with a good document is ingested at `t0`, a bearer request
/// arriving before `t0 + ttl` is planned straight to validation — no
/// fetch — and one arriving at or after `t0 + ttl` is planned to make
/// exactly one fetch attempt first.
pub proof fn lemma_one_fetch_per_staleness_window(
    st: RefreshStateV,
    ttl: u64,
    t0: u64,
    body: Option<Seq<char>>,
    h: Seq<u8>,
    token: Seq<u8>,
    t: u64,
)
    requires
        ingest_spec(st, t0, body).1 is Ok,
        extract_credential_spec(Some(h)) == CredentialStepV::Bearer(token),
    ensures
        t < t0 + ttl ==> plan_spec(ingest_spec(st, t0, body).0, ttl, Some(h), t)
            == InterceptPlanV::Validate(token),
        t >= t0 + ttl ==> plan_spec(ingest_spec(st, t0, body).0, ttl, Some(h), t)
            == InterceptPlanV::FetchThenValidate(token),
{
    crate::keys::lemma_staleness_window(st, t0, body, t, ttl);
}

/// Cache resilience, end to end: when a prior good key set exists and
/// this request's fetch attempt fails, the request is settled exactly
/// as it would have been against the prior key set — stale keys are
/// served rather than failing the request.
pub proof fn lemma_failed_refresh_still_validates(
    st: RefreshStateV,
    policy: ValidationPolicyV,
    now: u64,
    body: Option<Seq<char>>,
    token: Seq<u8>,
    ff: Option<FetchErrorKind>,
)
    requires
        st.current is Some,
        ingest_spec(st, now, body).1 is Err,
    ensures
        authorize_token_spec(ingest_spec(st, now, body).0, policy, token, ff)
            == authorize_token_spec(st, policy, token, ff),
{
    crate::keys::lemma_failed_fetch_keeps_keys(st, now, body);
}

/// A first-ever fetch failure is the one case that surfaces as
/// `KeyFetchFailed`: with nothing cached and this request's attempt
/// failed, the request is rejected for that failure — and the HTTP
/// mapping of that rejection is a server-side unavailable status, not
/// an unauthorized one.
pub proof fn lemma_first_fetch_failure_rejects(
    st: RefreshStateV,
    policy: ValidationPolicyV,
    now: u64,
    body: Option<Seq<char>>,
    token: Seq<u8>,
    k: FetchErrorKind,
)
    requires
        st.current is None,
        ingest_spec(st, now, body).1 == Err::<(), FetchErrorKind>(k),
    ensures
        authorize_token_spec(ingest_spec(st, now, body).0, policy, token, Some(k))
            == AuthDecisionV::Rejected(AuthError::KeyFetchFailed(k)),
        crate::outcome::http_status_spec(AuthError::KeyFetchFailed(k))
            == crate::outcome::HTTP_SERVICE_UNAVAILABLE,
{
    crate::keys::lemma_failed_fetch_keeps_keys(st, now, body);
}

} // verus!
