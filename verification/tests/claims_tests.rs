use token_gate::claims::{check_claims, Claims};
use token_gate::errors::VerifyError;

fn sample_claims() -> Claims {
    Claims {
        aud: "api://test-audience".to_string(),
        iss: "https://issuer.example/v2.0".to_string(),
        sub: "test-subject".to_string(),
        exp: 1_700_003_600,
        roles: None,
    }
}

const NOW: u64 = 1_700_000_000;

#[test]
fn valid_claims_pass() {
    let c = sample_claims();
    let r = check_claims(
        &c,
        NOW,
        60,
        &"api://test-audience".to_string(),
        &"https://issuer.example/v2.0".to_string(),
    );
    assert!(r.is_ok());
}

#[test]
fn expired_claims_fail() {
    let mut c = sample_claims();
    c.exp = NOW - 7200;
    let r = check_claims(
        &c,
        NOW,
        60,
        &"api://test-audience".to_string(),
        &"https://issuer.example/v2.0".to_string(),
    );
    assert_eq!(r.unwrap_err(), VerifyError::Expired);
}

#[test]
fn expiry_is_strict_without_skew() {
    let mut c = sample_claims();
    c.exp = NOW;
    let r = check_claims(
        &c,
        NOW,
        0,
        &"api://test-audience".to_string(),
        &"https://issuer.example/v2.0".to_string(),
    );
    assert_eq!(r.unwrap_err(), VerifyError::Expired);
}

#[test]
fn skew_allows_just_expired_claims() {
    let mut c = sample_claims();
    c.exp = NOW;
    let r = check_claims(
        &c,
        NOW,
        60,
        &"api://test-audience".to_string(),
        &"https://issuer.example/v2.0".to_string(),
    );
    assert!(r.is_ok());
    let r2 = check_claims(
        &c,
        NOW + 60,
        60,
        &"api://test-audience".to_string(),
        &"https://issuer.example/v2.0".to_string(),
    );
    assert_eq!(r2.unwrap_err(), VerifyError::Expired);
}

#[test]
fn audience_mismatch_wins_over_issuer_mismatch() {
    let c = sample_claims();
    let r = check_claims(
        &c,
        NOW,
        60,
        &"api://other-audience".to_string(),
        &"https://other-issuer.example".to_string(),
    );
    assert_eq!(r.unwrap_err(), VerifyError::AudienceMismatch);
}

#[test]
fn expiry_wins_over_audience_mismatch() {
    let mut c = sample_claims();
    c.exp = NOW - 7200;
    let r = check_claims(
        &c,
        NOW,
        60,
        &"api://other-audience".to_string(),
        &"https://issuer.example/v2.0".to_string(),
    );
    assert_eq!(r.unwrap_err(), VerifyError::Expired);
}

#[test]
fn issuer_mismatch_when_audience_matches() {
    let c = sample_claims();
    let r = check_claims(
        &c,
        NOW,
        60,
        &"api://test-audience".to_string(),
        &"https://other-issuer.example".to_string(),
    );
    assert_eq!(r.unwrap_err(), VerifyError::IssuerMismatch);
}

#[test]
fn error_messages_name_the_category() {
    assert_eq!(VerifyError::MalformedToken.message(), "Invalid token header");
    assert_eq!(VerifyError::KeyUnavailable.message(), "Signing keys unavailable");
    assert_eq!(VerifyError::UnknownKey.message(), "No matching JWK found");
    assert_eq!(VerifyError::BadSignature.message(), "Invalid token");
    assert_eq!(VerifyError::Expired.message(), "Token expired");
    assert_eq!(VerifyError::AudienceMismatch.message(), "Audience mismatch");
    assert_eq!(VerifyError::IssuerMismatch.message(), "Issuer mismatch");
}
