//! The verified payload of a token, and the ordered standard-claim checks.
use vstd::prelude::*;
use crate::errors::VerifyError;

verus! {

/// The decoded, verified payload of a token. Produced only by successful
/// verification; immutable once produced.
#[derive(Debug)]
pub struct Claims {
    /// The audience the token is scoped to.
    pub aud: String,
    /// The identity provider that signed the token.
    pub iss: String,
    /// The authenticated principal's identifier.
    pub sub: String,
    /// Expiry, as a UTC timestamp in seconds.
    pub exp: u64,
    /// The roles granted to the principal, where the token carries any.
    pub roles: Option<Vec<String>>,
}

/// The first standard-claim check that fails, in the fixed order expiry,
/// audience, issuer — or `None` where all three pass. A token is current
/// when its expiry, extended by the clock-skew allowance, lies strictly in
/// the future.
pub open spec fn claim_failure(
    c: Claims,
    now: u64,
    skew: u64,
    expected_aud: Seq<char>,
    expected_iss: Seq<char>,
) -> Option<VerifyError> {
    if c.exp + skew <= now {
        Some(VerifyError::Expired)
    } else if c.aud@ != expected_aud {
        Some(VerifyError::AudienceMismatch)
    } else if c.iss@ != expected_iss {
        Some(VerifyError::IssuerMismatch)
    } else {
        None
    }
}

/// Validates the standard claims against the expected audience and issuer
/// at the given verification time, with the given clock-skew allowance in
/// seconds. The first failing check names the error.
pub fn check_claims(
    c: &Claims,
    now: u64,
    skew: u64,
    expected_aud: &String,
    expected_iss: &String,
) -> (r: Result<(), VerifyError>)
    ensures
        match r {
            Ok(()) => claim_failure(*c, now, skew, expected_aud@, expected_iss@) is None,
            Err(e) => claim_failure(*c, now, skew, expected_aud@, expected_iss@) == Some(e),
        },
{
    let expired: bool = if now >= skew {
        c.exp <= now - skew
    } else {
        false
    };
    if expired {
        return Err(VerifyError::Expired);
    }
    if !(c.aud == *expected_aud) {
        return Err(VerifyError::AudienceMismatch);
    }
    if !(c.iss == *expected_iss) {
        return Err(VerifyError::IssuerMismatch);
    }
    Ok(())
}

/// The claim checks run in a fixed order — expiry, then audience, then
/// issuer — and the first failure names the outcome, whatever holds of the
/// later checks.
pub proof fn lemma_claim_check_order(
    c: Claims,
    now: u64,
    skew: u64,
    expected_aud: Seq<char>,
    expected_iss: Seq<char>,
)
    ensures
        c.exp + skew <= now ==> claim_failure(c, now, skew, expected_aud, expected_iss)
            == Some(VerifyError::Expired),
        c.exp + skew > now && c.aud@ != expected_aud ==> claim_failure(
            c,
            now,
            skew,
            expected_aud,
            expected_iss,
        ) == Some(VerifyError::AudienceMismatch),
        c.exp + skew > now && c.aud@ == expected_aud && c.iss@ != expected_iss
            ==> claim_failure(c, now, skew, expected_aud, expected_iss)
            == Some(VerifyError::IssuerMismatch),
        c.exp + skew > now && c.aud@ == expected_aud && c.iss@ == expected_iss
            ==> claim_failure(c, now, skew, expected_aud, expected_iss) is None,
{
}

} // verus!
