//! Signing keys: the provider's published key set, the parse of its
//! discovery document, and the cache cell that holds the most recently
//! fetched set together with its refresh time.

use vstd::prelude::*;

use crate::outcome::FetchErrorKind;

verus! {

/// How long a fetched key set stays fresh: twenty-four hours, in
/// seconds.
pub const DEFAULT_TTL_SECONDS: u64 = 86400;

/// The public material of one published signing key.
#[derive(Debug, Clone, PartialEq, Eq)]
pub enum KeyMaterial {
    /// An RSA public key: base64url-encoded modulus and exponent, as
    /// the discovery document carries them.
    Rsa { n: String, e: String },
    /// A key of a family the validator does not use.  It is kept so the
    /// set mirrors the provider's document, but no token matches it.
    Unsupported,
}

pub enum KeyMaterialV {
    Rsa { n: Seq<char>, e: Seq<char> },
    Unsupported,
}

impl View for KeyMaterial {
    type V = KeyMaterialV;

    open spec fn view(&self) -> KeyMaterialV {
        match self {
            KeyMaterial::Rsa { n, e } => KeyMaterialV::Rsa { n: n@, e: e@ },
            KeyMaterial::Unsupported => KeyMaterialV::Unsupported,
        }
    }
}

/// One entry of the provider's key set: the key id it was published
/// under, if any, and its public material.
#[derive(Debug, Clone, PartialEq, Eq)]
pub struct JwkKey {
    pub kid: Option<String>,
    pub material: KeyMaterial,
}

pub struct JwkKeyV {
    pub kid: Option<Seq<char>>,
    pub material: KeyMaterialV,
}

impl View for JwkKey {
    type V = JwkKeyV;

    open spec fn view(&self) -> JwkKeyV {
        JwkKeyV {
            kid: match &self.kid {
                Some(k) => Some(k@),
                None => None,
            },
            material: self.material@,
        }
    }
}

pub open spec fn keys_view(ks: Seq<JwkKey>) -> Seq<JwkKeyV> {
    ks.map_values(|k: JwkKey| k@)
}

/// The key set listed by a discovery document: `None` when the text is
/// not such a document, otherwise the published keys in their stored
/// order.  A function of the text alone.
pub uninterp spec fn jwks_of(text: Seq<char>) -> Option<Seq<JwkKeyV>>;

/// Relies on serde_json::from_str for jsonwebtoken's JwkSet shape: the
/// parse is a function of the text alone, and on success the keys come
/// back in the document's order, RSA entries with their modulus and
/// exponent, other families as unsupported material.
#[verifier::external_body]
pub(crate) fn parse_jwks(text: &str) -> (r: Option<Vec<JwkKey>>)
    ensures
        match r {
            Some(keys) => jwks_of(text@) == Some(keys_view(keys@)),
            None => jwks_of(text@) is None,
        },
{
    let convert = |k: jsonwebtoken::jwk::Jwk| JwkKey {
        kid: k.common.key_id,
        material: match k.algorithm {
            jsonwebtoken::jwk::AlgorithmParameters::RSA(p) => KeyMaterial::Rsa { n: p.n, e: p.e },
            _ => KeyMaterial::Unsupported,
        },
    };
    match serde_json::from_str::<jsonwebtoken::jwk::JwkSet>(text) {
        Ok(set) => Some(set.keys.into_iter().map(convert).collect()),
        Err(_) => None,
    }
}

/// An atomically replaced snapshot of the provider's signing keys, plus
/// the time (unix seconds) it was fetched.
#[derive(Debug, Clone)]
pub struct KeySet {
    pub keys: Vec<JwkKey>,
    pub fetched_at: u64,
}

pub struct KeySetV {
    pub keys: Seq<JwkKeyV>,
    pub fetched_at: u64,
}

impl View for KeySet {
    type V = KeySetV;

    open spec fn view(&self) -> KeySetV {
        KeySetV { keys: keys_view(self.keys@), fetched_at: self.fetched_at }
    }
}

/// The cache cell: the current key set, if any, and the time of the
/// last successful refresh.  The two are only ever replaced together,
/// and a failed fetch never touches them.
#[derive(Debug, Clone)]
pub struct RefreshState {
    pub current: Option<KeySet>,
    pub last_refreshed: u64,
}

pub struct RefreshStateV {
    pub current: Option<KeySetV>,
    pub last_refreshed: u64,
}

impl View for RefreshState {
    type V = RefreshStateV;

    open spec fn view(&self) -> RefreshStateV {
        RefreshStateV {
            current: match &self.current {
                Some(ks) => Some(ks@),
                None => None,
            },
            last_refreshed: self.last_refreshed,
        }
    }
}

/// A key set held by the cache was stored by the refresh it records.
pub open spec fn state_wf(st: RefreshStateV) -> bool {
    st.current matches Some(ks) ==> ks.fetched_at == st.last_refreshed
}

/// The staleness rule: a refresh is needed when no key set is cached at
/// all, or when `ttl` seconds or more have passed since the last
/// successful refresh.
pub open spec fn needs_refresh_spec(st: RefreshStateV, now: u64, ttl: u64) -> bool {
    st.current is None || now >= st.last_refreshed + ttl
}

/// What ingesting one fetch outcome does to the cache: the next state
/// and the report handed back.
///
/// - no response body (the network round trip failed): unchanged,
///   `Network` error;
/// - a body that is not a key-set document: unchanged, `Decode` error;
/// - a parsed document: the key set and the refresh time are replaced
///   together.
pub open spec fn ingest_spec(st: RefreshStateV, now: u64, body: Option<Seq<char>>) -> (
    RefreshStateV,
    Result<(), FetchErrorKind>,
) {
    match body {
        None => (st, Err(FetchErrorKind::Network)),
        Some(text) => match jwks_of(text) {
            None => (st, Err(FetchErrorKind::Decode)),
            Some(ks) => (
                RefreshStateV {
                    current: Some(KeySetV { keys: ks, fetched_at: now }),
                    last_refreshed: now,
                },
                Ok(()),
            ),
        },
    }
}

pub open spec fn opt_text_view(body: Option<&str>) -> Option<Seq<char>> {
    match body {
        Some(t) => Some(t@),
        None => None,
    }
}

impl RefreshState {
    /// The startup state: nothing cached, so the first validating
    /// request will trigger a fetch.
    pub fn empty() -> (r: RefreshState)
        ensures
            r@.current is None,
            r@.last_refreshed == 0,
            state_wf(r@),
    {
        RefreshState { current: None, last_refreshed: 0 }
    }

    /// Whether a validating request arriving at `now` must attempt a
    /// fetch before keys can be used.
    pub fn needs_refresh(&self, now: u64, ttl: u64) -> (r: bool)
        ensures
            r == needs_refresh_spec(self@, now, ttl),
    {
        match &self.current {
            None => true,
            Some(_) => {
                if now < self.last_refreshed {
                    false
                } else {
                    now - self.last_refreshed >= ttl
                }
            },
        }
    }

    /// Ingests the outcome of one fetch attempt, as [`ingest_spec`]
    /// describes: `body` is the response text, or `None` when the round
    /// trip itself failed.
    pub fn ingest_fetch(&mut self, now: u64, body: Option<&str>) -> (r: Result<
        (),
        FetchErrorKind,
    >)
        ensures
            (final(self)@, r) == ingest_spec(old(self)@, now, opt_text_view(body)),
            state_wf(old(self)@) ==> state_wf(final(self)@),
    {
        match body {
            None => Err(FetchErrorKind::Network),
            Some(text) => match parse_jwks(text) {
                None => Err(FetchErrorKind::Decode),
                Some(keys) => {
                    self.current = Some(KeySet { keys, fetched_at: now });
                    self.last_refreshed = now;
                    Ok(())
                },
            },
        }
    }

    /// The cached key set, if one has ever been stored.
    pub fn current_keys(&self) -> (r: Option<&KeySet>)
        ensures
            match r {
                Some(ks) => self@.current == Some(ks@),
                None => self@.current is None,
            },
    {
        self.current.as_ref()
    }
}

/// The staleness window: once a fetch outcome with a good document is
/// ingested at time `t0`, any request arriving before `t0 + ttl` is
/// served from the cache without a new fetch, and any request at or
/// after `t0 + ttl` needs one.
pub proof fn lemma_staleness_window(
    st: RefreshStateV,
    t0: u64,
    body: Option<Seq<char>>,
    t: u64,
    ttl: u64,
)
    requires
        ingest_spec(st, t0, body).1 is Ok,
    ensures
        t < t0 + ttl ==> !needs_refresh_spec(ingest_spec(st, t0, body).0, t, ttl),
        t >= t0 + ttl ==> needs_refresh_spec(ingest_spec(st, t0, body).0, t, ttl),
{
}

/// Cache resilience: a failed fetch leaves the cache exactly as it was,
/// so when a prior good key set exists, later validations keep using
/// it rather than failing outright.
pub proof fn lemma_failed_fetch_keeps_keys(st: RefreshStateV, now: u64, body: Option<Seq<char>>)
    requires
        ingest_spec(st, now, body).1 is Err,
    ensures
        ingest_spec(st, now, body).0 == st,
{
}

} // verus!
