//! Token validation: the trial of a bearer token against every key of
//! the current key set, under the configured policy.
//!
//! The keys are tried in their stored order.  The first key that
//! verifies the signature decides the outcome: its claims are decoded
//! and checked, and either become the caller's identity or reject the
//! request.  A key that does not verify the signature is simply not the
//! signing key and the trial moves on; when none verifies, the outcome
//! is `NoKeyMatched`, with no word about which keys were tried or why
//! each failed.

use vstd::prelude::*;

use crate::claims::claims_of_value;
use crate::claims::UserContext;
use crate::claims::UserContextV;
use crate::keys::opt_text_view;
use crate::keys::JwkKey;
use crate::keys::JwkKeyV;
use crate::keys::KeyMaterial;
use crate::keys::KeyMaterialV;
use crate::keys::KeySet;
use crate::outcome::AuthError;

verus! {

/// jsonwebtoken's validation policy value, carried opaquely between
/// the function that builds it and the per-key decode.
#[verifier::external_type_specification]
#[verifier::external_body]
pub struct ExValidation(jsonwebtoken::Validation);

/// Why one key's trial failed: the signature (or the key itself) did
/// not check out, or the signature checked out and the claims did not.
#[derive(Clone, Copy, Debug, PartialEq, Eq, Structural)]
pub enum TrialError {
    SignatureMismatch,
    ClaimsMismatch,
}

/// The audience and issuer constraints the validator enforces, beside
/// the fixed RS256 algorithm requirement.  `None` leaves the check off.
#[derive(Debug, Clone)]
pub struct ValidationPolicy {
    pub audience: Option<String>,
    pub issuer: Option<String>,
}

pub struct ValidationPolicyV {
    pub audience: Option<Seq<char>>,
    pub issuer: Option<Seq<char>>,
}

impl View for ValidationPolicy {
    type V = ValidationPolicyV;

    open spec fn view(&self) -> ValidationPolicyV {
        ValidationPolicyV {
            audience: match &self.audience {
                Some(a) => Some(a@),
                None => None,
            },
            issuer: match &self.issuer {
                Some(i) => Some(i@),
                None => None,
            },
        }
    }
}

/// The RS256 validation value determined by an audience and issuer
/// choice.
pub uninterp spec fn rs256_policy_of(
    aud: Option<Seq<char>>,
    iss: Option<Seq<char>>,
) -> jsonwebtoken::Validation;

/// What decoding a token under one RSA key and one policy value yields:
/// the claims document, or which half of the trial failed.  With expiry
/// checking off (as every value of [`rs256_policy_of`] has it), this is
/// a function of its arguments alone.
pub uninterp spec fn rs256_decode_spec(
    token: Seq<u8>,
    n: Seq<char>,
    e: Seq<char>,
    v: jsonwebtoken::Validation,
) -> Result<serde_json::Value, TrialError>;

/// Relies on jsonwebtoken's Validation: the policy value is determined
/// by the audience and issuer choice alone.  It requires RS256, leaves
/// expiry checking off, and when an audience or issuer is configured
/// the corresponding claim must be present and match.
#[verifier::external_body]
fn rs256_validation(aud: Option<&str>, iss: Option<&str>) -> (r: jsonwebtoken::Validation)
    ensures
        r == rs256_policy_of(opt_text_view(aud), opt_text_view(iss)),
{
    let mut v = jsonwebtoken::Validation::new(jsonwebtoken::Algorithm::RS256);
    v.validate_exp = false;
    v.required_spec_claims.clear();
    v.validate_aud = aud.is_some();
    if let Some(a) = aud {
        v.set_audience(&[a]);
        v.required_spec_claims.insert("aud".to_string());
    }
    if let Some(i) = iss {
        v.set_issuer(&[i]);
        v.required_spec_claims.insert("iss".to_string());
    }
    v
}

/// Relies on jsonwebtoken's DecodingKey::from_rsa_components and
/// decode: under a policy value with expiry checking off the outcome
/// depends on the token, the RSA components and the policy alone.  A
/// missing or mismatched audience/issuer claim comes back as a claims
/// mismatch; an unusable key, a wrong algorithm, an undecodable token,
/// or a signature that does not verify as a signature mismatch.
#[verifier::external_body]
fn rs256_decode(token: &[u8], n: &str, e: &str, v: &jsonwebtoken::Validation) -> (r: Result<
    serde_json::Value,
    TrialError,
>)
    requires
        exists|aud: Option<Seq<char>>, iss: Option<Seq<char>>| *v == rs256_policy_of(aud, iss),
    ensures
        r == rs256_decode_spec(token@, n@, e@, *v),
{
    let key = match jsonwebtoken::DecodingKey::from_rsa_components(n, e) {
        Ok(k) => k,
        Err(_) => return Err(TrialError::SignatureMismatch),
    };
    match jsonwebtoken::decode::<serde_json::Value>(token, &key, v) {
        Ok(d) => Ok(d.claims),
        Err(err) => match err.kind() {
            jsonwebtoken::errors::ErrorKind::MissingRequiredClaim(_)
            | jsonwebtoken::errors::ErrorKind::InvalidAudience
            | jsonwebtoken::errors::ErrorKind::InvalidIssuer => Err(TrialError::ClaimsMismatch),
            _ => Err(TrialError::SignatureMismatch),
        },
    }
}

/// The outcome of trying one key against the token.
pub enum KeyTrial {
    /// The key verified the signature and the payload carries a full
    /// identity that satisfies the policy.
    Match(UserContext),
    /// The key verified the signature but the claims were rejected:
    /// audience or issuer failed, or an identity field is missing.
    ClaimsMismatch,
    /// The key is not the one the token was signed with.
    NoMatch,
}

pub enum KeyTrialV {
    Match(UserContextV),
    ClaimsMismatch,
    NoMatch,
}

impl View for KeyTrial {
    type V = KeyTrialV;

    open spec fn view(&self) -> KeyTrialV {
        match self {
            KeyTrial::Match(c) => KeyTrialV::Match(c@),
            KeyTrial::ClaimsMismatch => KeyTrialV::ClaimsMismatch,
            KeyTrial::NoMatch => KeyTrialV::NoMatch,
        }
    }
}

/// What trying one published key against the token yields under the
/// configured policy.  Unsupported key material never matches; for RSA
/// material the decode decides, and a decoded payload must carry the
/// full identity to match.
pub open spec fn key_trial_spec(token: Seq<u8>, key: JwkKeyV, policy: ValidationPolicyV) -> KeyTrialV {
    match key.material {
        KeyMaterialV::Unsupported => KeyTrialV::NoMatch,
        KeyMaterialV::Rsa { n, e } => match rs256_decode_spec(
            token,
            n,
            e,
            rs256_policy_of(policy.audience, policy.issuer),
        ) {
            Err(TrialError::SignatureMismatch) => KeyTrialV::NoMatch,
            Err(TrialError::ClaimsMismatch) => KeyTrialV::ClaimsMismatch,
            Ok(doc) => match claims_of_value(doc) {
                Some(c) => KeyTrialV::Match(c),
                None => KeyTrialV::ClaimsMismatch,
            },
        },
    }
}

/// The validator's search over the key set, in stored order: the first
/// key whose trial is decisive — a match, or a claims rejection by a
/// key that verified the signature — settles the outcome; if every
/// key's trial is a non-match, the outcome is `NoKeyMatched`.
pub open spec fn validate_spec(
    token: Seq<u8>,
    keys: Seq<JwkKeyV>,
    policy: ValidationPolicyV,
) -> Result<UserContextV, AuthError>
    decreases keys.len(),
{
    if keys.len() == 0 {
        Err(AuthError::NoKeyMatched)
    } else {
        match key_trial_spec(token, keys[0], policy) {
            KeyTrialV::Match(c) => Ok(c),
            KeyTrialV::ClaimsMismatch => Err(AuthError::ClaimsRejected),
            KeyTrialV::NoMatch => validate_spec(token, keys.drop_first(), policy),
        }
    }
}

/// Tries one key, as [`key_trial_spec`] describes.  `v` must be the
/// policy value built from `policy`.
fn try_key(
    token: &[u8],
    key: &JwkKey,
    policy: &ValidationPolicy,
    v: &jsonwebtoken::Validation,
) -> (r: KeyTrial)
    requires
        *v == rs256_policy_of(policy@.audience, policy@.issuer),
    ensures
        r@ == key_trial_spec(token@, key@, policy@),
{
    match &key.material {
        KeyMaterial::Unsupported => KeyTrial::NoMatch,
        KeyMaterial::Rsa { n, e } => {
            match rs256_decode(token, n.as_str(), e.as_str(), v) {
                Err(TrialError::SignatureMismatch) => KeyTrial::NoMatch,
                Err(TrialError::ClaimsMismatch) => KeyTrial::ClaimsMismatch,
                Ok(doc) => match UserContext::from_value(&doc) {
                    Some(c) => KeyTrial::Match(c),
                    None => KeyTrial::ClaimsMismatch,
                },
            }
        },
    }
}

pub open spec fn validate_result_view(r: Result<UserContext, AuthError>) -> Result<
    UserContextV,
    AuthError,
> {
    match r {
        Ok(c) => Ok(c@),
        Err(e) => Err(e),
    }
}

/// Validates a bearer token against every key of `keys` in stored
/// order under `policy`, as [`validate_spec`] describes.
#[verifier::loop_isolation(false)]
pub fn validate_token(token: &[u8], keys: &KeySet, policy: &ValidationPolicy) -> (r: Result<
    UserContext,
    AuthError,
>)
    ensures
        validate_result_view(r) == validate_spec(token@, keys@.keys, policy@),
{
    let aud = match &policy.audience {
        Some(a) => Some(a.as_str()),
        None => None,
    };
    let iss = match &policy.issuer {
        Some(i) => Some(i.as_str()),
        None => None,
    };
    let v = rs256_validation(aud, iss);

    let ghost all = keys@.keys;
    assert(all.skip(0) =~= all);
    let n = keys.keys.len();
    let mut i: usize = 0;
    while i < n
        invariant
            0 <= i <= n,
            validate_spec(token@, all, policy@) == validate_spec(token@, all.skip(i as int), policy@),
        decreases n - i,
    {
        let trial = try_key(token, &keys.keys[i], policy, &v);
        proof {
            assert(all.skip(i as int)[0] == all[i as int]);
            assert(all.skip(i as int).drop_first() =~= all.skip(i + 1));
        }
        match trial {
            KeyTrial::Match(c) => {
                return Ok(c);
            },
            KeyTrial::ClaimsMismatch => {
                return Err(AuthError::ClaimsRejected);
            },
            KeyTrial::NoMatch => {},
        }
        i += 1;
    }
    assert(all.skip(n as int) =~= Seq::<JwkKeyV>::empty());
    Err(AuthError::NoKeyMatched)
}

/// Key rotation: when exactly one key of the set matches the token —
/// every other key's trial is a non-match — validation succeeds with
/// that key's claims, no matter where the key stands in the set.
pub proof fn lemma_single_match(
    token: Seq<u8>,
    keys: Seq<JwkKeyV>,
    policy: ValidationPolicyV,
    i: int,
    c: UserContextV,
)
    requires
        0 <= i < keys.len(),
        key_trial_spec(token, keys[i], policy) == KeyTrialV::Match(c),
        forall|j: int|
            0 <= j < keys.len() && j != i ==> key_trial_spec(token, keys[j], policy)
                == KeyTrialV::NoMatch,
    ensures
        validate_spec(token, keys, policy) == Ok::<UserContextV, AuthError>(c),
    decreases i,
{
    if i == 0 {
    } else {
        let rest = keys.drop_first();
        assert(key_trial_spec(token, keys[0], policy) == KeyTrialV::NoMatch);
        assert(rest[i - 1] == keys[i]);
        assert forall|j: int|
            0 <= j < rest.len() && j != i - 1 implies key_trial_spec(token, rest[j], policy)
            == KeyTrialV::NoMatch by {
            assert(rest[j] == keys[j + 1]);
        }
        lemma_single_match(token, rest, policy, i - 1, c);
    }
}

/// An empty key set can never authenticate: whatever the token and the
/// policy, validation yields `NoKeyMatched`.
pub proof fn lemma_empty_keyset(token: Seq<u8>, policy: ValidationPolicyV)
    ensures
        validate_spec(token, Seq::<JwkKeyV>::empty(), policy) == Err::<UserContextV, AuthError>(
            AuthError::NoKeyMatched,
        ),
{
}

} // verus!
