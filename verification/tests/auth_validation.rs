//! Token validation end to end, with real keys and real signatures: a
//! matching key admits a fresh token, and a wrong key, a stale expiry or a
//! broken header are each refused with their own reason.

use liberation::auth::KeycloakCache;
use liberation::auth::get_claims_for_req;
use liberation::error::AuthError;

const FUTURE_EXP: u64 = 4102444800;

const NOW: u64 = 1700000000;

fn fresh_keypair() -> (Vec<u8>, Vec<u8>) {
    let rsa = openssl::rsa::Rsa::generate(2048).unwrap();
    let private_pkcs1 = rsa.private_key_to_der().unwrap();
    let public_spki = rsa.public_key_to_der().unwrap();
    (private_pkcs1, public_spki)
}

fn claims_payload(exp: u64) -> serde_json::Value {
    let mut payload = serde_json::Map::new();
    payload.insert(
        String::from("uid"),
        serde_json::Value::String(String::from("user-1")),
    );
    payload.insert(
        String::from("roles"),
        serde_json::Value::Array(vec![
            serde_json::Value::String(String::from("admin")),
            serde_json::Value::String(String::from("member")),
        ]),
    );
    payload.insert(
        String::from("name"),
        serde_json::Value::String(String::from("Ann Example")),
    );
    payload.insert(
        String::from("email"),
        serde_json::Value::String(String::from("ann@example.org")),
    );
    payload.insert(String::from("exp"), serde_json::Value::from(exp));
    serde_json::Value::Object(payload)
}

fn sign_token(private_pkcs1: &[u8], exp: u64) -> String {
    let key = jsonwebtoken::EncodingKey::from_rsa_der(private_pkcs1);
    jsonwebtoken::encode(
        &jsonwebtoken::Header::new(jsonwebtoken::Algorithm::RS256),
        &claims_payload(exp),
        &key,
    )
    .unwrap()
}

fn cache_with_key(public_spki: &[u8]) -> KeycloakCache {
    let mut cache = KeycloakCache::new();
    cache.set_public_key(base64::encode(public_spki));
    cache
}

#[test]
fn valid_token_yields_its_claims() {
    let (private_key, public_key) = fresh_keypair();
    let cache = cache_with_key(&public_key);
    let header = format!("Bearer {}", sign_token(&private_key, FUTURE_EXP)).into_bytes();

    let claims = get_claims_for_req(&cache, Some(&header), NOW)
        .unwrap()
        .unwrap();
    assert_eq!(claims.uid, "user-1");
    assert_eq!(claims.roles, vec![String::from("admin"), String::from("member")]);
    assert_eq!(claims.name, "Ann Example");
    assert_eq!(claims.email, "ann@example.org");
    assert_eq!(claims.exp, FUTURE_EXP);
}

#[test]
fn token_signed_with_other_key_is_invalid() {
    let (_own_private, own_public) = fresh_keypair();
    let (other_private, _other_public) = fresh_keypair();
    let cache = cache_with_key(&own_public);
    let header = format!("Bearer {}", sign_token(&other_private, FUTURE_EXP)).into_bytes();

    let result = get_claims_for_req(&cache, Some(&header), NOW);
    assert_eq!(result, Err(AuthError::InvalidToken));
}

#[test]
fn expired_token_is_invalid() {
    let (private_key, public_key) = fresh_keypair();
    let cache = cache_with_key(&public_key);
    let header = format!("Bearer {}", sign_token(&private_key, NOW - 60)).into_bytes();

    let result = get_claims_for_req(&cache, Some(&header), NOW);
    assert_eq!(result, Err(AuthError::InvalidToken));
}

#[test]
fn absent_header_is_anonymous_not_an_error() {
    let (_private_key, public_key) = fresh_keypair();
    let cache = cache_with_key(&public_key);

    let result = get_claims_for_req(&cache, None, NOW);
    assert_eq!(result, Ok(None));
}

#[test]
fn header_with_invisible_bytes_is_malformed() {
    let (_private_key, public_key) = fresh_keypair();
    let cache = cache_with_key(&public_key);
    let mut header = b"Bearer ".to_vec();
    header.push(0xff);
    header.push(0x00);

    let result = get_claims_for_req(&cache, Some(&header), NOW);
    assert_eq!(result, Err(AuthError::MalformedHeader));

    let keyless = liberation::auth::KeycloakCache::new();
    let result = get_claims_for_req(&keyless, Some(&header), NOW);
    assert_eq!(result, Err(AuthError::MalformedHeader));
}

#[test]
fn non_bearer_header_is_malformed() {
    let (_private_key, public_key) = fresh_keypair();
    let cache = cache_with_key(&public_key);
    let header = b"Token xyz".to_vec();

    let result = get_claims_for_req(&cache, Some(&header), NOW);
    assert_eq!(result, Err(AuthError::MalformedHeader));
}

#[test]
fn garbage_bearer_token_with_any_key_is_invalid() {
    let (_private_key, public_key) = fresh_keypair();
    let cache = cache_with_key(&public_key);
    let header = b"Bearer abc.def.ghi".to_vec();

    let result = get_claims_for_req(&cache, Some(&header), NOW);
    assert_eq!(result, Err(AuthError::InvalidToken));
}

#[test]
fn validation_fails_closed_before_first_refresh() {
    let (private_key, _public_key) = fresh_keypair();
    let cache = KeycloakCache::new();
    let header = format!("Bearer {}", sign_token(&private_key, FUTURE_EXP)).into_bytes();

    let result = get_claims_for_req(&cache, Some(&header), NOW);
    assert_eq!(result, Err(AuthError::KeyUnavailable));
}

#[test]
fn undecodable_key_text_is_key_unavailable() {
    let (private_key, _public_key) = fresh_keypair();
    let mut cache = KeycloakCache::new();
    cache.set_public_key(String::from("%%% not base64 %%%"));
    let header = format!("Bearer {}", sign_token(&private_key, FUTURE_EXP)).into_bytes();

    let result = get_claims_for_req(&cache, Some(&header), NOW);
    assert_eq!(result, Err(AuthError::KeyUnavailable));
}

#[test]
fn payload_missing_a_claim_field_is_invalid() {
    let (private_key, public_key) = fresh_keypair();
    let cache = cache_with_key(&public_key);
    let mut payload = serde_json::Map::new();
    payload.insert(
        String::from("uid"),
        serde_json::Value::String(String::from("user-1")),
    );
    payload.insert(String::from("exp"), serde_json::Value::from(FUTURE_EXP));
    let key = jsonwebtoken::EncodingKey::from_rsa_der(&private_key);
    let token = jsonwebtoken::encode(
        &jsonwebtoken::Header::new(jsonwebtoken::Algorithm::RS256),
        &serde_json::Value::Object(payload),
        &key,
    )
    .unwrap();
    let header = format!("Bearer {}", token).into_bytes();

    let result = get_claims_for_req(&cache, Some(&header), NOW);
    assert_eq!(result, Err(AuthError::InvalidToken));
}
