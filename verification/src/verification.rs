//! Verifying one token against the signing-key set: header parse, key
//! lookup, signature check, claim extraction, and the ordered claim checks.
use vstd::prelude::*;
use crate::claims;
use crate::claims::Claims;
use crate::errors::VerifyError;
use crate::json;
use crate::jwt;
use crate::keyset::SigningKeySet;

verus! {

/// Whether a signature-verified payload carries the claims in the expected
/// shape: `aud`, `iss` and `sub` strings, an `exp` unsigned number, and —
/// where a `roles` field is present at all — an array of strings.
pub open spec fn payload_well_formed(v: serde_json::Value) -> bool {
    &&& json::spec_str_field(v, "aud"@) is Some
    &&& json::spec_str_field(v, "iss"@) is Some
    &&& json::spec_str_field(v, "sub"@) is Some
    &&& json::spec_u64_field(v, "exp"@) is Some
    &&& match json::spec_str_array_field(v, "roles"@) {
        Some(inner) => inner is Some,
        None => true,
    }
}

/// Builds typed claims out of a signature-verified payload, validating each
/// field: it succeeds exactly on a well-formed payload, and every field of
/// the claims equals the payload's field. A payload that does not fit yields
/// `BadSignature` — the token is rejected as invalid, as step three of the
/// verifier rejects it; `MalformedToken` is reserved for the header.
pub fn extract_claims(payload: &serde_json::Value) -> (r: Result<Claims, VerifyError>)
    ensures
        r is Ok <==> payload_well_formed(*payload),
        r matches Ok(c) ==> {
            &&& json::spec_str_field(*payload, "aud"@) == Some(c.aud@)
            &&& json::spec_str_field(*payload, "iss"@) == Some(c.iss@)
            &&& json::spec_str_field(*payload, "sub"@) == Some(c.sub@)
            &&& json::spec_u64_field(*payload, "exp"@) == Some(c.exp)
            &&& match c.roles {
                None => json::spec_str_array_field(*payload, "roles"@) is None,
                Some(rs) => json::spec_str_array_field(*payload, "roles"@) == Some(
                    Some(rs.deep_view()),
                ),
            }
        },
        r matches Err(e) ==> e == VerifyError::BadSignature,
{
    let aud = match json::string_field(payload, "aud") {
        Some(s) => s,
        None => {
            return Err(VerifyError::BadSignature);
        },
    };
    let iss = match json::string_field(payload, "iss") {
        Some(s) => s,
        None => {
            return Err(VerifyError::BadSignature);
        },
    };
    let sub = match json::string_field(payload, "sub") {
        Some(s) => s,
        None => {
            return Err(VerifyError::BadSignature);
        },
    };
    let exp = match json::u64_field(payload, "exp") {
        Some(n) => n,
        None => {
            return Err(VerifyError::BadSignature);
        },
    };
    let roles = match json::str_array_field(payload, "roles") {
        None => None,
        Some(None) => {
            return Err(VerifyError::BadSignature);
        },
        Some(Some(items)) => Some(items),
    };
    Ok(Claims { aud, iss, sub, exp, roles })
}

/// Verifies a raw token against the signing-key set: decodes the header,
/// resolves the key the token names, verifies the RS256 signature, and then
/// checks expiry, audience and issuer in that order. Returns the claims, or
/// the first failure:
/// - `MalformedToken` exactly where the header does not decode or names no
///   key identifier;
/// - `UnknownKey` exactly where the named key identifier is not in the set;
/// - `BadSignature` where cryptographic verification rejects the token or
///   the verified payload lacks a claim;
/// - the first failing claim check otherwise.
pub fn verify_token(
    token: &str,
    keys: &SigningKeySet,
    expected_aud: &String,
    expected_iss: &String,
    now: u64,
    skew: u64,
) -> (r: Result<Claims, VerifyError>)
    ensures
        r == Err::<Claims, VerifyError>(VerifyError::MalformedToken) <==> (jwt::header_kid_of(
            token@,
        ) is None || (jwt::header_kid_of(token@) matches Some(kid) && kid is None)),
        r == Err::<Claims, VerifyError>(VerifyError::UnknownKey) <==> (jwt::header_kid_of(token@)
            matches Some(kid) && kid matches Some(k) && !keys.has_kid(k)),
        r matches Ok(c) ==> {
            &&& jwt::header_kid_of(token@) matches Some(kid) && kid matches Some(k)
                && keys.has_kid(k)
            &&& claims::claim_failure(c, now, skew, expected_aud@, expected_iss@) is None
        },
        r matches Err(e) && (e == VerifyError::BadSignature || e == VerifyError::Expired
            || e == VerifyError::AudienceMismatch || e == VerifyError::IssuerMismatch) ==> (
        jwt::header_kid_of(token@) matches Some(kid) && kid matches Some(k) && keys.has_kid(k)),
{
    let kid_opt = match jwt::decode_header_kid(token) {
        Ok(k) => k,
        Err(_) => {
            return Err(VerifyError::MalformedToken);
        },
    };
    let kid = match kid_opt {
        Some(k) => k,
        None => {
            return Err(VerifyError::MalformedToken);
        },
    };
    let key = match keys.lookup(kid.as_str()) {
        Some(k) => k,
        None => {
            return Err(VerifyError::UnknownKey);
        },
    };
    let payload = match jwt::decode_rs256(token, key) {
        Ok(p) => p,
        Err(_) => {
            return Err(VerifyError::BadSignature);
        },
    };
    let c = match extract_claims(&payload) {
        Ok(c) => c,
        Err(e) => {
            return Err(e);
        },
    };
    match claims::check_claims(&c, now, skew, expected_aud, expected_iss) {
        Ok(()) => Ok(c),
        Err(e) => Err(e),
    }
}

} // verus!
