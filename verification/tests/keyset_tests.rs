use token_gate::jwks::{build_key_set, key_set_from_document, RawJwk};

const TEST_N: &str = "qnNLRXCvTgUzfIGJKrKbffhIpb_or99LvepLgGF_j1wxxXlq3hgBQU-IgMFO77gijR76RgFL-9qGVtNqKptJnH-mQm24pR7W5AhtIVFdigWFhT-IUiU5JWR472gsz6G8vXWpMKfXKaXtn3z7O04Nk6GGvX-E4DSctPCsRASElzs7p0fmJmsf7NDd3TsFmV8qc4K9cUF72LXZguoxonGQ-PMSosR54D-9SBIhhUH9U2tx9lp8bBRZ4qopxtQoCbUM-s0VvqDexuXhBuJRta68p_uc0u45vwNW9OOEuFxuyOT7gLbd33qGuq7R6JOQALvQvffCNWhEWjDP5-9QecMrvQ";

fn raw(kid: &str) -> RawJwk {
    RawJwk {
        kid: Some(kid.to_string()),
        n: Some(TEST_N.to_string()),
        e: Some("AQAB".to_string()),
    }
}

fn err_cause(r: Result<token_gate::keyset::SigningKeySet, token_gate::errors::FetchError>) -> String {
    match r {
        Err(f) => f.cause,
        Ok(_) => panic!("expected a fetch failure"),
    }
}

#[test]
fn build_and_lookup() {
    let ks = build_key_set(vec![raw("a"), raw("b")]).unwrap();
    assert_eq!(ks.len(), 2);
    assert!(ks.lookup("a").is_some());
    assert!(ks.lookup("b").is_some());
    assert!(ks.lookup("c").is_none());
}

#[test]
fn duplicate_kid_is_replaced_not_duplicated() {
    let ks = build_key_set(vec![raw("a"), raw("a")]).unwrap();
    assert_eq!(ks.len(), 1);
    assert!(ks.lookup("a").is_some());
}

#[test]
fn missing_kid_fails_the_whole_build() {
    let mut bad = raw("a");
    bad.kid = None;
    let r = build_key_set(vec![raw("b"), bad]);
    assert!(r.is_err());
    assert_eq!(err_cause(r), "key entry lacks a key identifier");
}

#[test]
fn missing_modulus_fails_the_whole_build() {
    let mut bad = raw("a");
    bad.n = None;
    let r = build_key_set(vec![bad]);
    assert_eq!(err_cause(r), "key entry lacks a modulus");
}

#[test]
fn missing_exponent_fails_the_whole_build() {
    let mut bad = raw("a");
    bad.e = None;
    let r = build_key_set(vec![bad]);
    assert_eq!(err_cause(r), "key entry lacks an exponent");
}

#[test]
fn undecodable_key_material_fails_the_whole_build() {
    let mut bad = raw("a");
    bad.n = Some("!!!not-base64url!!!".to_string());
    let r = build_key_set(vec![raw("b"), bad]);
    assert_eq!(err_cause(r), "key entry holds undecodable key material");
}

#[test]
fn empty_document_entries_build_an_empty_set() {
    let ks = build_key_set(vec![]).unwrap();
    assert_eq!(ks.len(), 0);
    assert!(ks.lookup("a").is_none());
}

#[test]
fn document_parses_into_a_key_set() {
    let doc = format!(
        "{{\"keys\":[{{\"kid\":\"test-key\",\"n\":\"{}\",\"e\":\"AQAB\"}}]}}",
        TEST_N
    );
    let ks = key_set_from_document(&doc).unwrap();
    assert_eq!(ks.len(), 1);
    assert!(ks.lookup("test-key").is_some());
}

#[test]
fn malformed_json_document_fails() {
    let r = key_set_from_document("{not json");
    assert_eq!(err_cause(r), "key-discovery document is not valid JSON");
}

#[test]
fn document_without_keys_field_fails() {
    let r = key_set_from_document("{\"other\": 1}");
    assert_eq!(err_cause(r), "key-discovery document has no keys array");
}

#[test]
fn document_with_non_array_keys_fails() {
    let r = key_set_from_document("{\"keys\": \"nope\"}");
    assert_eq!(err_cause(r), "key-discovery document has no keys array");
}

#[test]
fn document_entry_without_kid_fails() {
    let doc = format!("{{\"keys\":[{{\"n\":\"{}\",\"e\":\"AQAB\"}}]}}", TEST_N);
    let r = key_set_from_document(&doc);
    assert_eq!(err_cause(r), "key entry lacks a key identifier");
}

#[test]
fn document_entry_with_non_string_kid_fails() {
    let doc = format!("{{\"keys\":[{{\"kid\":7,\"n\":\"{}\",\"e\":\"AQAB\"}}]}}", TEST_N);
    let r = key_set_from_document(&doc);
    assert_eq!(err_cause(r), "key entry lacks a key identifier");
}
