//! Credential extraction: reading the bearer token out of an inbound
//! request's authorization value.
//!
//! The value is handled as raw bytes, exactly as a transport delivers
//! it.  It must be visible ASCII of the shape `<scheme> <token>` with a
//! single space; the scheme must be `Bearer`; and the token must look
//! like a signed three-segment token (two dots, base64url characters)
//! before any key is consulted.

use vstd::prelude::*;

use crate::outcome::AuthError;

verus! {

/// A byte that an authorization value may carry: visible ASCII or the
/// space separator.  Anything else makes the value unreadable as a
/// header string.
pub open spec fn is_visible(b: u8) -> bool {
    32 <= b <= 126
}

pub open spec fn all_visible(s: Seq<u8>) -> bool {
    forall|j: int| 0 <= j < s.len() ==> is_visible(s[j])
}

/// The index of the first occurrence of `b` in `s`, if any.
pub open spec fn find_byte(s: Seq<u8>, b: u8) -> Option<int>
    decreases s.len(),
{
    if s.len() == 0 {
        None
    } else if s[0] == b {
        Some(0)
    } else {
        match find_byte(s.drop_first(), b) {
            Some(i) => Some(i + 1),
            None => None,
        }
    }
}

/// How often `b` occurs in `s`.
pub open spec fn count_byte(s: Seq<u8>, b: u8) -> nat
    decreases s.len(),
{
    if s.len() == 0 {
        0
    } else {
        (if s[0] == b {
            1nat
        } else {
            0nat
        }) + count_byte(s.drop_first(), b)
    }
}

/// `find_byte` finds exactly the first occurrence: a hit is in bounds,
/// holds `b`, and nothing before it does; a miss means `b` is absent.
pub proof fn lemma_find_byte(s: Seq<u8>, b: u8)
    ensures
        match find_byte(s, b) {
            Some(i) => 0 <= i < s.len() && s[i] == b && (forall|j: int| 0 <= j < i ==> s[j] != b),
            None => forall|j: int| 0 <= j < s.len() ==> s[j] != b,
        },
    decreases s.len(),
{
    if s.len() == 0 {
    } else if s[0] == b {
    } else {
        let rest = s.drop_first();
        lemma_find_byte(rest, b);
        match find_byte(rest, b) {
            Some(i) => {
                assert(rest[i] == s[i + 1]);
                assert forall|j: int| 0 <= j < i + 1 implies s[j] != b by {
                    if j > 0 {
                        assert(rest[j - 1] == s[j]);
                    }
                }
            },
            None => {
                assert forall|j: int| 0 <= j < s.len() implies s[j] != b by {
                    if j > 0 {
                        assert(rest[j - 1] == s[j]);
                    }
                }
            },
        }
    }
}

/// Appending one byte raises the count by one exactly when that byte is
/// the counted one.
pub proof fn lemma_count_byte_push(s: Seq<u8>, b: u8, x: u8)
    ensures
        count_byte(s.push(x), b) == count_byte(s, b) + (if x == b {
            1nat
        } else {
            0nat
        }),
    decreases s.len(),
{
    if s.len() == 0 {
        assert(s.push(x).drop_first() =~= s);
    } else {
        assert(s.push(x).drop_first() =~= s.drop_first().push(x));
        lemma_count_byte_push(s.drop_first(), b, x);
    }
}

/// The bytes of the scheme word `Bearer`.
pub open spec fn is_bearer(s: Seq<u8>) -> bool {
    s.len() == 6 && s[0] == 66 && s[1] == 101 && s[2] == 97 && s[3] == 114 && s[4] == 101
        && s[5] == 114
}

/// A byte of the unpadded base64url alphabet.
pub open spec fn is_b64url(b: u8) -> bool {
    (65 <= b <= 90) || (97 <= b <= 122) || (48 <= b <= 57) || b == 45 || b == 95
}

/// The shape of a compact signed token: three dot-separated segments
/// (so exactly two dots) over the base64url alphabet.
pub open spec fn token_shape(s: Seq<u8>) -> bool {
    count_byte(s, 46) == 2 && (forall|j: int| 0 <= j < s.len() ==> (s[j] == 46 || is_b64url(s[j])))
}

/// What becomes of a present authorization value: the bearer token it
/// carries, or why it is rejected.
///
/// - not visible ASCII, or not exactly two space-separated parts, or a
///   token without the three-segment shape: `MalformedCredential`;
/// - a scheme other than `Bearer`: `UnsupportedScheme`;
/// - otherwise the token bytes after the single space.
pub open spec fn parse_header_spec(h: Seq<u8>) -> Result<Seq<u8>, AuthError> {
    if !all_visible(h) {
        Err(AuthError::MalformedCredential)
    } else {
        match find_byte(h, 32) {
            None => Err(AuthError::MalformedCredential),
            Some(i) => {
                let token = h.skip(i + 1);
                if find_byte(token, 32) is Some {
                    Err(AuthError::MalformedCredential)
                } else if !is_bearer(h.take(i)) {
                    Err(AuthError::UnsupportedScheme)
                } else if !token_shape(token) {
                    Err(AuthError::MalformedCredential)
                } else {
                    Ok(token)
                }
            },
        }
    }
}

pub open spec fn parse_result_view(r: Result<Vec<u8>, AuthError>) -> Result<Seq<u8>, AuthError> {
    match r {
        Ok(t) => Ok(t@),
        Err(e) => Err(e),
    }
}

/// Splits a present authorization value into scheme and token and
/// checks both, as [`parse_header_spec`] describes.
#[verifier::loop_isolation(false)]
pub fn parse_header_value(h: &[u8]) -> (r: Result<Vec<u8>, AuthError>)
    ensures
        parse_result_view(r) == parse_header_spec(h@),
{
    let n = h.len();
    let mut i: usize = 0;
    while i < n
        invariant
            0 <= i <= n,
            n == h@.len(),
            forall|j: int| 0 <= j < i ==> is_visible(h@[j]),
        decreases n - i,
    {
        if h[i] < 32 || h[i] > 126 {
            return Err(AuthError::MalformedCredential);
        }
        i += 1;
    }
    assert(all_visible(h@));

    let mut sp: usize = 0;
    while sp < n && h[sp] != 32
        invariant
            0 <= sp <= n,
            n == h@.len(),
            forall|j: int| 0 <= j < sp ==> h@[j] != 32,
        decreases n - sp,
    {
        sp += 1;
    }
    proof {
        lemma_find_byte(h@, 32);
    }
    if sp == n {
        assert(find_byte(h@, 32) is None);
        return Err(AuthError::MalformedCredential);
    }
    assert(find_byte(h@, 32) == Some(sp as int));

    let mut j: usize = sp + 1;
    while j < n && h[j] != 32
        invariant
            sp < j <= n,
            n == h@.len(),
            forall|k: int| sp < k < j ==> h@[k] != 32,
        decreases n - j,
    {
        j += 1;
    }
    let ghost token_spec = h@.skip(sp + 1);
    proof {
        lemma_find_byte(token_spec, 32);
        assert(forall|k: int| 0 <= k < token_spec.len() ==> token_spec[k] == h@[k + sp + 1]);
    }
    if j < n {
        assert(token_spec[j - sp - 1] == 32);
        assert(find_byte(token_spec, 32) is Some);
        return Err(AuthError::MalformedCredential);
    }
    assert(find_byte(token_spec, 32) is None);

    let bearer = sp == 6 && h[0] == 66 && h[1] == 101 && h[2] == 97 && h[3] == 114 && h[4] == 101
        && h[5] == 114;
    proof {
        assert(forall|k: int| 0 <= k < sp ==> h@.take(sp as int)[k] == h@[k]);
    }
    if !bearer {
        assert(!is_bearer(h@.take(sp as int)));
        return Err(AuthError::UnsupportedScheme);
    }
    assert(is_bearer(h@.take(sp as int)));

    let mut token: Vec<u8> = Vec::new();
    let mut k: usize = sp + 1;
    while k < n
        invariant
            sp + 1 <= k <= n,
            n == h@.len(),
            token@ =~= h@.subrange(sp + 1, k as int),
        decreases n - k,
    {
        token.push(h[k]);
        k += 1;
    }
    assert(token@ =~= token_spec);

    let m = token.len();
    let mut dots: usize = 0;
    let mut p: usize = 0;
    while p < m
        invariant
            0 <= p <= m,
            m == token@.len(),
            dots <= p,
            dots == count_byte(token@.take(p as int), 46),
            forall|q: int| 0 <= q < p ==> (token@[q] == 46 || is_b64url(token@[q])),
        decreases m - p,
    {
        let b = token[p];
        proof {
            assert(token@.take(p + 1) =~= token@.take(p as int).push(token@[p as int]));
            lemma_count_byte_push(token@.take(p as int), 46, token@[p as int]);
        }
        if b == 46 {
            dots += 1;
        } else if !((b >= 65 && b <= 90) || (b >= 97 && b <= 122) || (b >= 48 && b <= 57)
            || b == 45 || b == 95) {
            assert(token_spec[p as int] == b);
            assert(!token_shape(token_spec));
            return Err(AuthError::MalformedCredential);
        }
        p += 1;
    }
    assert(token@.take(m as int) =~= token@);
    if dots != 2 {
        return Err(AuthError::MalformedCredential);
    }
    assert(token_shape(token@));
    Ok(token)
}

/// The interceptor's first step on a request: the token to validate, a
/// pass-through for an anonymous caller, or a rejection.
#[derive(Debug, Clone, PartialEq, Eq)]
pub enum CredentialStep {
    /// The request carries no authorization value at all; it proceeds
    /// without an identity and downstream policy decides.
    Anonymous,
    /// The bearer token to validate.
    Bearer(Vec<u8>),
    /// The credential was present but unusable.
    Rejected(AuthError),
}

pub enum CredentialStepV {
    Anonymous,
    Bearer(Seq<u8>),
    Rejected(AuthError),
}

impl View for CredentialStep {
    type V = CredentialStepV;

    open spec fn view(&self) -> CredentialStepV {
        match self {
            CredentialStep::Anonymous => CredentialStepV::Anonymous,
            CredentialStep::Bearer(t) => CredentialStepV::Bearer(t@),
            CredentialStep::Rejected(e) => CredentialStepV::Rejected(*e),
        }
    }
}

pub open spec fn opt_bytes_view(h: Option<&[u8]>) -> Option<Seq<u8>> {
    match h {
        Some(s) => Some(s@),
        None => None,
    }
}

/// What the interceptor does with a request's authorization value, or
/// with its absence.
pub open spec fn extract_credential_spec(h: Option<Seq<u8>>) -> CredentialStepV {
    match h {
        None => CredentialStepV::Anonymous,
        Some(s) => match parse_header_spec(s) {
            Ok(t) => CredentialStepV::Bearer(t),
            Err(e) => CredentialStepV::Rejected(e),
        },
    }
}

/// Reads the credential off a request.  `header` is the raw
/// authorization value, or `None` when the request carries none.
pub fn extract_credential(header: Option<&[u8]>) -> (r: CredentialStep)
    ensures
        r@ == extract_credential_spec(opt_bytes_view(header)),
{
    match header {
        None => CredentialStep::Anonymous,
        Some(h) => match parse_header_value(h) {
            Ok(t) => CredentialStep::Bearer(t),
            Err(e) => CredentialStep::Rejected(e),
        },
    }
}

/// A readable credential under any scheme other than `Bearer` is always
/// rejected as unsupported, before any signature is examined: the
/// outcome does not depend on the token part at all.
pub proof fn lemma_non_bearer_rejected(h: Seq<u8>, i: int)
    requires
        all_visible(h),
        find_byte(h, 32) == Some(i),
        find_byte(h.skip(i + 1), 32) is None,
        !is_bearer(h.take(i)),
    ensures
        parse_header_spec(h) == Err::<Seq<u8>, AuthError>(AuthError::UnsupportedScheme),
{
}

} // verus!
