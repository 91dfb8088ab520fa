//! Verification of bearer tokens against a cached set of provider signing
//! keys: key-set parsing, key lookup, signature and claim validation, and a
//! role-based authorization decision.
//!
//! The crate never mints tokens. It parses a provider's key-discovery
//! document into a [`keyset::SigningKeySet`], holds it in a populate-once
//! [`cache::KeyCache`], verifies an incoming token's signature and standard
//! claims ([`verification::verify_token`]), and decides a single role-based
//! capability ([`authorize::authorize`]). Network and clock input come from
//! the caller as plain values.
pub mod authorize;
pub mod cache;
pub mod claims;
pub mod errors;
pub mod gate;
pub mod json;
pub mod jwks;
pub mod jwt;
pub mod keyset;
pub mod text;
pub mod verification;
