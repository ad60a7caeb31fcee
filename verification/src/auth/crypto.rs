//! The narrow trusted edge of token validation: base64 decoding, RSA key
//! re-encoding, RS256 signature verification and payload parsing, each done
//! by an outside crate behind a contract.
//!
//! Each result below is a pure function of its arguments, so it is given a
//! name by an uninterpreted spec function; the verified validation logic in
//! [`crate::auth`] speaks of those names and of nothing more.

use vstd::prelude::*;

use base64::Engine;

use super::{Claims, ClaimsV};

verus! {

/// What base64's standard-alphabet decoder yields on the given text:
/// `Some` of the decoded bytes, or `None` when the text is not valid base64.
pub uninterp spec fn b64_decode_of(s: Seq<char>) -> Option<Seq<u8>>;

/// What base64's URL-safe no-padding decoder yields on the given bytes.
pub uninterp spec fn b64url_decode_of(s: Seq<u8>) -> Option<Seq<u8>>;

/// What re-encoding an RSA public key from X.509 SubjectPublicKeyInfo DER to
/// PKCS#1 DER yields: `None` when the bytes are not such a key.
pub uninterp spec fn rsa_pkcs1_of(spki_der: Seq<u8>) -> Option<Seq<u8>>;

/// Whether the base64url-encoded RS256 signature verifies the message under
/// the PKCS#1 DER public key.
pub uninterp spec fn rs256_valid(signature: Seq<u8>, message: Seq<u8>, key_pkcs1_der: Seq<u8>) -> bool;

/// The claims carried by a token payload: `Some` when the bytes are a JSON
/// object with text `uid`, `name` and `email`, a string array `roles` and an
/// integer `exp`, and `None` otherwise.
pub uninterp spec fn claims_of(payload: Seq<u8>) -> Option<ClaimsV>;

/// Relies on `base64::decode` (the standard alphabet, padded): the result is
/// a function of the text alone.
#[verifier::external_body]
pub(crate) fn b64_decode(s: &str) -> (r: Option<Vec<u8>>)
    ensures
        match r {
            Some(b) => b64_decode_of(s@) == Some(b@),
            None => b64_decode_of(s@) is None,
        },
{
    base64::decode(s).ok()
}

/// Relies on `base64::engine::general_purpose::URL_SAFE_NO_PAD`'s decoder:
/// the result is a function of the bytes alone.
#[verifier::external_body]
pub(crate) fn b64url_decode(s: &[u8]) -> (r: Option<Vec<u8>>)
    ensures
        match r {
            Some(b) => b64url_decode_of(s@) == Some(b@),
            None => b64url_decode_of(s@) is None,
        },
{
    base64::engine::general_purpose::URL_SAFE_NO_PAD.decode(s).ok()
}

/// Relies on openssl's `Rsa::public_key_from_der` (reading an X.509
/// SubjectPublicKeyInfo key, the shape the identity provider publishes) and
/// `public_key_to_der_pkcs1` (writing the same key as PKCS#1 DER, the shape
/// the signature check wants): both are functions of the key bytes alone.
#[verifier::external_body]
pub(crate) fn rsa_spki_to_pkcs1(der: &Vec<u8>) -> (r: Option<Vec<u8>>)
    ensures
        match r {
            Some(b) => rsa_pkcs1_of(der@) == Some(b@),
            None => rsa_pkcs1_of(der@) is None,
        },
{
    match openssl::rsa::Rsa::public_key_from_der(der.as_slice()) {
        Ok(key) => key.public_key_to_der_pkcs1().ok(),
        Err(_) => None,
    }
}

/// Relies on `jsonwebtoken::crypto::verify` with `Algorithm::RS256` under
/// the crate's RustCrypto provider, the key read by
/// `DecodingKey::from_rsa_der`: whether the signature verifies is a function
/// of signature, message and key bytes alone; any malformed input simply
/// fails to verify. The crate routes the call through a process-global
/// `CryptoProvider`; this build enables only the RustCrypto one and nothing
/// here or in the surrounding program installs another, so that is the
/// provider that answers.
#[verifier::external_body]
pub(crate) fn rs256_verify(signature: &[u8], message: &[u8], key_pkcs1_der: &Vec<u8>) -> (r: bool)
    ensures
        r == rs256_valid(signature@, message@, key_pkcs1_der@),
{
    let sig = match core::str::from_utf8(signature) {
        Ok(s) => s,
        Err(_) => return false,
    };
    let key = jsonwebtoken::DecodingKey::from_rsa_der(key_pkcs1_der.as_slice());
    jsonwebtoken::crypto::verify(sig, message, &key, jsonwebtoken::Algorithm::RS256).unwrap_or(
        false,
    )
}

/// Relies on `serde_json::from_slice` to parse the payload, and on
/// `serde_json::Value`'s accessors to pick the claim fields out, one for one;
/// unknown extra fields are ignored, a missing or mistyped field yields
/// `None`. The fields read are functions of the payload bytes alone.
#[verifier::external_body]
pub(crate) fn claims_from_json(payload: &Vec<u8>) -> (r: Option<Claims>)
    ensures
        match r {
            Some(c) => claims_of(payload@) == Some(c@),
            None => claims_of(payload@) is None,
        },
{
    let v: serde_json::Value = serde_json::from_slice(payload.as_slice()).ok()?;
    let uid = v.get("uid")?.as_str()?.to_string();
    let name = v.get("name")?.as_str()?.to_string();
    let email = v.get("email")?.as_str()?.to_string();
    let exp = v.get("exp")?.as_u64()?;
    let mut roles: Vec<String> = Vec::new();
    for role in v.get("roles")?.as_array()? {
        roles.push(role.as_str()?.to_string());
    }
    Some(Claims { uid, roles, name, email, exp })
}

} // verus!
