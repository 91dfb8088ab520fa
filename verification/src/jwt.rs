//! Trusted declarations around `jsonwebtoken`: constructing a verification
//! key from RSA components, reading a token's header, and verifying a
//! token's signature.
use vstd::prelude::*;

verus! {

#[verifier::external_type_specification]
#[verifier::external_body]
pub struct ExDecodingKey(jsonwebtoken::DecodingKey);

#[verifier::external_type_specification]
#[verifier::external_body]
pub struct ExJwtError(jsonwebtoken::errors::Error);

/// Whether `jsonwebtoken::DecodingKey::from_rsa_components` accepts a
/// modulus/exponent pair; it base64url-decodes both, so the outcome depends
/// on the two strings alone.
pub uninterp spec fn rsa_components_ok(n: Seq<char>, e: Seq<char>) -> bool;

/// What `jsonwebtoken::decode_header` finds in a token: `None` where the
/// header segment cannot be decoded, otherwise the header's optional key
/// identifier. The header is read from the token text alone.
pub uninterp spec fn header_kid_of(token: Seq<char>) -> Option<Option<Seq<char>>>;

/// Relies on `jsonwebtoken::DecodingKey::from_rsa_components`: builds an RSA
/// verification key from base64url modulus and exponent strings, failing
/// exactly where one of them does not decode.
#[verifier::external_body]
pub(crate) fn key_from_rsa_components(n: &str, e: &str) -> (r: Result<
    jsonwebtoken::DecodingKey,
    jsonwebtoken::errors::Error,
>)
    ensures
        r is Ok <==> rsa_components_ok(n@, e@),
{
    jsonwebtoken::DecodingKey::from_rsa_components(n, e)
}

/// Relies on `jsonwebtoken::decode_header`: splits the token at its dots and
/// base64-decodes the header segment, without verifying anything; the
/// outcome depends on the token text alone.
#[verifier::external_body]
pub(crate) fn decode_header_kid(token: &str) -> (r: Result<
    Option<String>,
    jsonwebtoken::errors::Error,
>)
    ensures
        match r {
            Ok(kid) => match kid {
                Some(k) => header_kid_of(token@) == Some(Some(k@)),
                None => header_kid_of(token@) == Some(None::<Seq<char>>),
            },
            Err(_) => header_kid_of(token@) is None,
        },
{
    jsonwebtoken::decode_header(token).map(|h| h.kid)
}

/// Relies on `jsonwebtoken::decode`: verifies the token's signature against
/// the given key, accepting only the RS256 algorithm (symmetric and "none"
/// algorithms fail), and returns the decoded payload. Expiry and audience
/// checking are switched off here: the claims are validated by this crate
/// after extraction. Nothing is promised of the outcome, which depends on
/// the opaque key; callers state what holds of every outcome.
#[verifier::external_body]
pub(crate) fn decode_rs256(token: &str, key: &jsonwebtoken::DecodingKey) -> (r: Result<
    serde_json::Value,
    jsonwebtoken::errors::Error,
>)
{
    let mut validation = jsonwebtoken::Validation::new(jsonwebtoken::Algorithm::RS256);
    validation.validate_exp = false;
    validation.validate_aud = false;
    validation.required_spec_claims = std::collections::HashSet::new();
    jsonwebtoken::decode::<serde_json::Value>(token, key, &validation).map(|data| data.claims)
}

} // verus!
