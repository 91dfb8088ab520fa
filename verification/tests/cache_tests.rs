use token_gate::cache::KeyCache;
use token_gate::jwks::{build_key_set, RawJwk};
use token_gate::keyset::SigningKeySet;

const TEST_N: &str = "qnNLRXCvTgUzfIGJKrKbffhIpb_or99LvepLgGF_j1wxxXlq3hgBQU-IgMFO77gijR76RgFL-9qGVtNqKptJnH-mQm24pR7W5AhtIVFdigWFhT-IUiU5JWR472gsz6G8vXWpMKfXKaXtn3z7O04Nk6GGvX-E4DSctPCsRASElzs7p0fmJmsf7NDd3TsFmV8qc4K9cUF72LXZguoxonGQ-PMSosR54D-9SBIhhUH9U2tx9lp8bBRZ4qopxtQoCbUM-s0VvqDexuXhBuJRta68p_uc0u45vwNW9OOEuFxuyOT7gLbd33qGuq7R6JOQALvQvffCNWhEWjDP5-9QecMrvQ";

fn set_with_kid(kid: &str) -> SigningKeySet {
    build_key_set(vec![RawJwk {
        kid: Some(kid.to_string()),
        n: Some(TEST_N.to_string()),
        e: Some("AQAB".to_string()),
    }])
    .unwrap()
}

#[test]
fn new_cache_needs_a_fetch() {
    let cache = KeyCache::new();
    assert!(cache.needs_fetch());
    assert!(cache.peek().is_none());
}

#[test]
fn install_populates_the_cache() {
    let mut cache = KeyCache::new();
    cache.install(set_with_kid("first"));
    assert!(!cache.needs_fetch());
    let seen = cache.peek().unwrap();
    assert!(seen.lookup("first").is_some());
}

#[test]
fn later_installs_keep_the_first_set() {
    let mut cache = KeyCache::new();
    cache.install(set_with_kid("first"));
    cache.install(set_with_kid("second"));
    let seen = cache.peek().unwrap();
    assert!(seen.lookup("first").is_some());
    assert!(seen.lookup("second").is_none());
}

#[test]
fn repeated_callers_trigger_exactly_one_fetch() {
    let mut cache = KeyCache::new();
    let mut fetches: u32 = 0;
    let mut seen_lens: Vec<usize> = Vec::new();
    for _caller in 0..5 {
        if cache.needs_fetch() {
            fetches += 1;
            cache.install(set_with_kid("first"));
        }
        let seen = cache.peek().unwrap();
        assert!(seen.lookup("first").is_some());
        seen_lens.push(seen.len());
    }
    assert_eq!(fetches, 1);
    assert_eq!(seen_lens, vec![1, 1, 1, 1, 1]);
}
