use portfolio_auth::keys::{JwkKey, KeyMaterial, RefreshState, DEFAULT_TTL_SECONDS};
use portfolio_auth::outcome::FetchErrorKind;

const RSA_N: &str = "w5lyV1ZFBmGSCE-ip_e6Vl1EDgzHJU-OTjUDJRUgnDsS77oAidv9noQN2wdyJxQ2TJmJC6YH0zwDXJzjWiNtRnk2rZ9lVpefUd_Z-c76Z7RVs2P0j3ocfmNluAjPK0jfnxgXqZE1S3jxcq9WePSQAtH-qqqMf0OO9bGAhbFpU8xwLH3nZw3129n4bjKFsJtfKJRx6wRTV2vgD0fR3E59w2n4Hgz4Xj9x_C8_fqn1T7CgyMJS6nzlDLhkgCRZiQreMUQs2xWBBUgYqIdFrIJDjQgY0mnmi3HJMOpgFKG868Sb19wQVW_9Byo5JfRj2kX--pARG3SYOXG2HLE08zBfHw";

fn one_key_document() -> String {
    format!(
        "{{\"keys\":[{{\"kty\":\"RSA\",\"kid\":\"key-a\",\"use\":\"sig\",\"n\":\"{}\",\"e\":\"AQAB\"}}]}}",
        RSA_N
    )
}

#[test]
fn empty_cache_always_needs_refresh() {
    let st = RefreshState::empty();
    assert!(st.needs_refresh(0, DEFAULT_TTL_SECONDS));
    assert!(st.needs_refresh(5, DEFAULT_TTL_SECONDS));
    assert!(st.needs_refresh(u64::MAX, DEFAULT_TTL_SECONDS));
}

#[test]
fn fetched_keyset_is_fresh_for_a_day() {
    let mut st = RefreshState::empty();
    let r = st.ingest_fetch(1000, Some("{\"keys\":[]}"));
    assert_eq!(r, Ok(()));
    assert!(!st.needs_refresh(1000, DEFAULT_TTL_SECONDS));
    assert!(!st.needs_refresh(1000 + 86399, DEFAULT_TTL_SECONDS));
    assert!(st.needs_refresh(1000 + 86400, DEFAULT_TTL_SECONDS));
    assert!(st.needs_refresh(1000 + 86401, DEFAULT_TTL_SECONDS));
}

#[test]
fn clock_before_refresh_time_counts_as_fresh() {
    let mut st = RefreshState::empty();
    st.ingest_fetch(1000, Some("{\"keys\":[]}")).unwrap();
    assert!(!st.needs_refresh(999, DEFAULT_TTL_SECONDS));
}

#[test]
fn network_failure_leaves_cache_untouched() {
    let mut st = RefreshState::empty();
    st.ingest_fetch(1000, Some(&one_key_document())).unwrap();
    let r = st.ingest_fetch(2000, None);
    assert_eq!(r, Err(FetchErrorKind::Network));
    assert_eq!(st.last_refreshed, 1000);
    let ks = st.current_keys().expect("prior key set kept");
    assert_eq!(ks.fetched_at, 1000);
    assert_eq!(ks.keys.len(), 1);
}

#[test]
fn undecodable_body_leaves_cache_untouched() {
    let mut st = RefreshState::empty();
    st.ingest_fetch(1000, Some(&one_key_document())).unwrap();
    let r = st.ingest_fetch(2000, Some("this is not a key set"));
    assert_eq!(r, Err(FetchErrorKind::Decode));
    assert_eq!(st.last_refreshed, 1000);
    assert!(st.current_keys().is_some());
}

#[test]
fn first_failure_leaves_cache_empty() {
    let mut st = RefreshState::empty();
    let r = st.ingest_fetch(1000, None);
    assert_eq!(r, Err(FetchErrorKind::Network));
    assert!(st.current_keys().is_none());
    assert_eq!(st.last_refreshed, 0);
}

#[test]
fn parsed_document_carries_key_material() {
    let mut st = RefreshState::empty();
    st.ingest_fetch(1000, Some(&one_key_document())).unwrap();
    let ks = st.current_keys().unwrap();
    assert_eq!(
        ks.keys[0],
        JwkKey {
            kid: Some("key-a".to_string()),
            material: KeyMaterial::Rsa { n: RSA_N.to_string(), e: "AQAB".to_string() },
        }
    );
}

#[test]
fn unknown_key_families_are_kept_in_order_as_unsupported() {
    let doc = format!(
        "{{\"keys\":[{{\"kty\":\"EC\"}},{{\"kty\":\"RSA\",\"n\":\"{}\",\"e\":\"AQAB\"}}]}}",
        RSA_N
    );
    let mut st = RefreshState::empty();
    st.ingest_fetch(7, Some(&doc)).unwrap();
    let ks = st.current_keys().unwrap();
    assert_eq!(ks.keys.len(), 2);
    assert_eq!(ks.keys[0].material, KeyMaterial::Unsupported);
    assert_eq!(ks.keys[0].kid, None);
    assert!(matches!(ks.keys[1].material, KeyMaterial::Rsa { .. }));
}

#[test]
fn successful_refresh_replaces_set_wholesale() {
    let mut st = RefreshState::empty();
    st.ingest_fetch(1000, Some(&one_key_document())).unwrap();
    st.ingest_fetch(2000, Some("{\"keys\":[]}")).unwrap();
    let ks = st.current_keys().unwrap();
    assert_eq!(ks.keys.len(), 0);
    assert_eq!(ks.fetched_at, 2000);
    assert_eq!(st.last_refreshed, 2000);
}
