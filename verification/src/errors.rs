//! The failure taxonomy of token verification and key acquisition.
use vstd::prelude::*;

verus! {

/// The reason a token failed verification. Every kind maps to an
/// authentication failure for the caller; none is fatal to the process.
#[derive(Debug, Clone, Copy, PartialEq, Eq, Structural)]
pub enum VerifyError {
    /// The token's header segment could not be decoded, or it carries no
    /// key identifier.
    MalformedToken,
    /// The signing-key set could not be obtained.
    KeyUnavailable,
    /// The token names a key identifier that the cached key set does not
    /// hold (the expected outcome while the provider rotates keys).
    UnknownKey,
    /// Cryptographic verification rejected the token: the signature does
    /// not verify, the declared algorithm is outside the allow-list, or the
    /// signature-verified payload does not carry the claims in the expected
    /// shape.
    BadSignature,
    /// The token's expiry does not lie in the future, beyond the allowed
    /// clock skew.
    Expired,
    /// The audience claim does not equal the expected audience.
    AudienceMismatch,
    /// The issuer claim does not equal the expected issuer.
    IssuerMismatch,
}

impl VerifyError {
    /// The caller-visible category of this failure: a fixed phrase, never a
    /// diagnostic of an underlying library.
    pub open spec fn spec_message(self) -> Seq<char> {
        match self {
            VerifyError::MalformedToken => "Invalid token header"@,
            VerifyError::KeyUnavailable => "Signing keys unavailable"@,
            VerifyError::UnknownKey => "No matching JWK found"@,
            VerifyError::BadSignature => "Invalid token"@,
            VerifyError::Expired => "Token expired"@,
            VerifyError::AudienceMismatch => "Audience mismatch"@,
            VerifyError::IssuerMismatch => "Issuer mismatch"@,
        }
    }

    /// The caller-visible message for this failure.
    pub fn message(&self) -> (m: String)
        ensures
            m@ == self.spec_message(),
    {
        match self {
            VerifyError::MalformedToken => "Invalid token header".to_owned(),
            VerifyError::KeyUnavailable => "Signing keys unavailable".to_owned(),
            VerifyError::UnknownKey => "No matching JWK found".to_owned(),
            VerifyError::BadSignature => "Invalid token".to_owned(),
            VerifyError::Expired => "Token expired".to_owned(),
            VerifyError::AudienceMismatch => "Audience mismatch".to_owned(),
            VerifyError::IssuerMismatch => "Issuer mismatch".to_owned(),
        }
    }
}

/// A failure to acquire or parse the provider's signing-key set. One kind
/// with a descriptive cause; no partial key set ever accompanies it.
#[derive(Debug)]
pub struct FetchError {
    /// What went wrong, as a category phrase.
    pub cause: String,
}

impl FetchError {
    /// Builds a fetch failure with the given cause.
    pub fn new(cause: &str) -> (f: FetchError)
        ensures
            f.cause@ == cause@,
    {
        FetchError { cause: cause.to_owned() }
    }
}

} // verus!
