//! Parsing the provider's key-discovery document into a signing-key set.
//!
//! The document is a JSON object with a `keys` array; each element carries a
//! key identifier and base64url RSA modulus and exponent. One entry that
//! cannot be parsed fails the whole fetch: no partial, inconsistent key set
//! is ever returned.
use vstd::prelude::*;
use crate::errors::FetchError;
use crate::json;
use crate::jwt;
use crate::keyset::SigningKeySet;

verus! {

/// One entry of the key-discovery document, as found: each field is present
/// or not, validated only when the key set is built.
pub struct RawJwk {
    /// The key identifier, where the entry has one.
    pub kid: Option<String>,
    /// The base64url RSA modulus, where the entry has one.
    pub n: Option<String>,
    /// The base64url RSA exponent, where the entry has one.
    pub e: Option<String>,
}

/// Whether an entry carries all three required fields.
pub open spec fn jwk_complete(j: RawJwk) -> bool {
    j.kid is Some && j.n is Some && j.e is Some
}

/// Whether an entry yields a verification key: all fields present, and the
/// modulus and exponent decode as key material.
pub open spec fn jwk_ok(j: RawJwk) -> bool {
    &&& jwk_complete(j)
    &&& j.n matches Some(n) && j.e matches Some(e) && jwt::rsa_components_ok(n@, e@)
}

/// Whether an entry names the given key identifier.
pub open spec fn jwk_has_kid(j: RawJwk, kid: Seq<char>) -> bool {
    j.kid matches Some(s) && s@ == kid
}

/// Whether a raw entry holds exactly the three string fields of the indexed
/// element of the document's `keys` array.
pub open spec fn raw_matches(raw: RawJwk, v: serde_json::Value, i: int) -> bool {
    &&& match raw.kid {
        Some(s) => json::spec_elem_str_field(v, "keys"@, i, "kid"@) == Some(s@),
        None => json::spec_elem_str_field(v, "keys"@, i, "kid"@) is None,
    }
    &&& match raw.n {
        Some(s) => json::spec_elem_str_field(v, "keys"@, i, "n"@) == Some(s@),
        None => json::spec_elem_str_field(v, "keys"@, i, "n"@) is None,
    }
    &&& match raw.e {
        Some(s) => json::spec_elem_str_field(v, "keys"@, i, "e"@) == Some(s@),
        None => json::spec_elem_str_field(v, "keys"@, i, "e"@) is None,
    }
}

/// Whether the indexed element of the document's `keys` array yields a
/// verification key: string `kid`, `n` and `e` fields, with the modulus and
/// exponent decoding as key material.
pub open spec fn elem_ok(v: serde_json::Value, i: int) -> bool {
    &&& json::spec_elem_str_field(v, "keys"@, i, "kid"@) is Some
    &&& json::spec_elem_str_field(v, "keys"@, i, "n"@) matches Some(n)
        && json::spec_elem_str_field(v, "keys"@, i, "e"@) matches Some(e)
        && jwt::rsa_components_ok(n, e)
}

/// Whether the indexed element of the document's `keys` array names the
/// given key identifier.
pub open spec fn elem_kid_is(v: serde_json::Value, i: int, kid: Seq<char>) -> bool {
    json::spec_elem_str_field(v, "keys"@, i, "kid"@) == Some(kid)
}

/// Builds the signing-key set from the document's entries, failing the whole
/// build — with no partial set — as soon as one entry lacks a field or its
/// key material does not decode. On success the set holds a key for exactly
/// the identifiers the entries name; an identifier named twice keeps the
/// later entry's key.
pub fn build_key_set(entries: Vec<RawJwk>) -> (r: Result<SigningKeySet, FetchError>)
    ensures
        r is Ok <==> (forall|i: int| 0 <= i < entries@.len() ==> jwk_ok(entries@[i])),
        r matches Ok(ks) ==> {
            &&& ks.wf()
            &&& forall|k: Seq<char>|
                ks.has_kid(k) <==> exists|i: int|
                    0 <= i < entries@.len() && jwk_has_kid(entries@[i], k)
        },
{
    let mut ks = SigningKeySet::new();
    let mut i: usize = 0;
    while i < entries.len()
        invariant
            ks.wf(),
            i <= entries@.len(),
            forall|j: int| 0 <= j < i ==> jwk_ok(entries@[j]),
            forall|k: Seq<char>|
                ks.has_kid(k) <==> exists|j: int| 0 <= j < i && jwk_has_kid(entries@[j], k),
        decreases entries@.len() - i,
    {
        let entry = &entries[i];
        let kid = match &entry.kid {
            Some(s) => s,
            None => {
                return Err(FetchError::new("key entry lacks a key identifier"));
            },
        };
        let n = match &entry.n {
            Some(s) => s,
            None => {
                return Err(FetchError::new("key entry lacks a modulus"));
            },
        };
        let e = match &entry.e {
            Some(s) => s,
            None => {
                return Err(FetchError::new("key entry lacks an exponent"));
            },
        };
        let key = match jwt::key_from_rsa_components(n.as_str(), e.as_str()) {
            Ok(k) => k,
            Err(_) => {
                return Err(FetchError::new("key entry holds undecodable key material"));
            },
        };
        ks.insert(kid.clone(), key);
        i += 1;
    }
    Ok(ks)
}

/// Builds the signing-key set out of a parsed key-discovery document: fails
/// — never aborts — where the document has no `keys` array or any element
/// yields no key; on success the set holds a key for exactly the identifiers
/// the document's elements name.
pub fn key_set_from_value(v: &serde_json::Value) -> (r: Result<SigningKeySet, FetchError>)
    ensures
        r is Ok <==> (json::spec_array_field_len(*v, "keys"@) matches Some(len) && forall|i: int|
            0 <= i < len ==> elem_ok(*v, i)),
        r matches Ok(ks) ==> {
            &&& ks.wf()
            &&& json::spec_array_field_len(*v, "keys"@) matches Some(len) && forall|k: Seq<char>|
                ks.has_kid(k) <==> exists|i: int| 0 <= i < len && elem_kid_is(*v, i, k)
        },
{
    let len = match json::array_field_len(v, "keys") {
        Some(n) => n,
        None => {
            return Err(FetchError::new("key-discovery document has no keys array"));
        },
    };
    let mut raws: Vec<RawJwk> = Vec::new();
    let mut i: usize = 0;
    while i < len
        invariant
            json::spec_array_field_len(*v, "keys"@) == Some(len),
            i <= len,
            raws@.len() == i,
            forall|j: int| 0 <= j < i ==> raw_matches(raws@[j], *v, j),
        decreases len - i,
    {
        let raw = RawJwk {
            kid: json::elem_string_field(v, "keys", i, "kid"),
            n: json::elem_string_field(v, "keys", i, "n"),
            e: json::elem_string_field(v, "keys", i, "e"),
        };
        raws.push(raw);
        i += 1;
    }
    let ghost raws_seq = raws@;
    let r = build_key_set(raws);
    proof {
        assert(raws_seq.len() == len);
        if r is Ok {
            assert forall|i: int| 0 <= i < len implies elem_ok(*v, i) by {
                assert(jwk_ok(raws_seq[i]));
                assert(raw_matches(raws_seq[i], *v, i));
            }
        } else {
            if forall|i: int| 0 <= i < len ==> elem_ok(*v, i) {
                assert forall|j: int| 0 <= j < raws_seq.len() implies jwk_ok(raws_seq[j]) by {
                    assert(elem_ok(*v, j));
                    assert(raw_matches(raws_seq[j], *v, j));
                }
                assert(r is Ok);
            }
        }
        match &r {
            Ok(ks) => {
                assert forall|k: Seq<char>| ks.has_kid(k) <==> exists|i: int|
                    0 <= i < len && elem_kid_is(*v, i, k) by {
                    if ks.has_kid(k) {
                        let i = choose|i: int|
                            0 <= i < raws_seq.len() && jwk_has_kid(raws_seq[i], k);
                        assert(raw_matches(raws_seq[i], *v, i));
                        assert(elem_kid_is(*v, i, k));
                    }
                    if exists|i: int| 0 <= i < len && elem_kid_is(*v, i, k) {
                        let i = choose|i: int| 0 <= i < len && elem_kid_is(*v, i, k);
                        assert(raw_matches(raws_seq[i], *v, i));
                        assert(jwk_has_kid(raws_seq[i], k));
                    }
                }
            },
            Err(_) => {},
        }
    }
    r
}

/// Parses the key-discovery document's text and builds the signing-key set:
/// the compute half of a fetch, taking the fetched body as a plain string.
/// Fails — never aborts — on malformed JSON; what the parsed document must
/// carry, [`key_set_from_value`] states exactly.
pub fn key_set_from_document(doc: &str) -> (r: Result<SigningKeySet, FetchError>)
    ensures
        !json::json_parses(doc@) ==> r is Err,
        r matches Ok(ks) ==> ks.wf(),
{
    let v = match json::json_from_str(doc) {
        Some(v) => v,
        None => {
            return Err(FetchError::new("key-discovery document is not valid JSON"));
        },
    };
    key_set_from_value(&v)
}

} // verus!
