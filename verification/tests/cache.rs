use bearer_auth::cache::{JwksCache, TTL_SECONDS};
use bearer_auth::jwk::{Jwk, KeySet};

fn keys(kid: &str) -> KeySet {
    KeySet::new(vec![Jwk { kid: kid.to_string(), n: "AQAB".to_string(), e: "AQAB".to_string() }])
}

fn first_kid(set: &KeySet) -> String {
    set.key(0).unwrap().kid.clone()
}

#[test]
fn time_to_live_is_one_hour() {
    assert_eq!(TTL_SECONDS, 3600);
}

#[test]
fn empty_cache_misses() {
    let cache = JwksCache::new();
    assert!(cache.get("https://a.example/jwks", 0).is_none());
}

#[test]
fn entry_is_served_until_the_hour_has_passed() {
    let mut cache = JwksCache::new();
    cache.put("https://a.example/jwks", keys("k1"), 10_000);
    assert_eq!(first_kid(cache.get("https://a.example/jwks", 10_000).unwrap()), "k1");
    assert_eq!(first_kid(cache.get("https://a.example/jwks", 13_599).unwrap()), "k1");
    assert!(cache.get("https://a.example/jwks", 13_600).is_none());
    assert!(cache.get("https://a.example/jwks", 13_601).is_none());
}

#[test]
fn time_to_live_does_not_slide() {
    let mut cache = JwksCache::new();
    cache.put("https://a.example/jwks", keys("k1"), 0);
    assert!(cache.get("https://a.example/jwks", 3_000).is_some());
    assert!(cache.get("https://a.example/jwks", 3_599).is_some());
    assert!(cache.get("https://a.example/jwks", 3_600).is_none());
}

#[test]
fn put_replaces_the_entry_of_its_source() {
    let mut cache = JwksCache::new();
    cache.put("https://a.example/jwks", keys("old"), 0);
    cache.put("https://a.example/jwks", keys("new"), 5_000);
    assert_eq!(first_kid(cache.get("https://a.example/jwks", 5_000).unwrap()), "new");
    assert_eq!(first_kid(cache.get("https://a.example/jwks", 8_599).unwrap()), "new");
    assert!(cache.get("https://a.example/jwks", 8_600).is_none());
}

#[test]
fn sources_are_independent() {
    let mut cache = JwksCache::new();
    cache.put("https://a.example/jwks", keys("a"), 0);
    cache.put("https://b.example/jwks", keys("b"), 2_000);
    assert_eq!(first_kid(cache.get("https://a.example/jwks", 3_000).unwrap()), "a");
    assert_eq!(first_kid(cache.get("https://b.example/jwks", 3_000).unwrap()), "b");
    assert!(cache.get("https://a.example/jwks", 4_000).is_none());
    assert_eq!(first_kid(cache.get("https://b.example/jwks", 4_000).unwrap()), "b");
    cache.put("https://a.example/jwks", keys("a2"), 4_000);
    assert_eq!(first_kid(cache.get("https://a.example/jwks", 4_000).unwrap()), "a2");
    assert_eq!(first_kid(cache.get("https://b.example/jwks", 4_000).unwrap()), "b");
}

#[test]
fn source_is_matched_by_its_exact_text() {
    let mut cache = JwksCache::new();
    cache.put("https://a.example/jwks", keys("a"), 0);
    assert!(cache.get("https://a.example/jwks/", 0).is_none());
    assert!(cache.get("https://A.example/jwks", 0).is_none());
    assert!(cache.get("https://a.example/jwk", 0).is_none());
    assert!(cache.get("", 0).is_none());
}

#[test]
fn a_clock_that_runs_back_keeps_the_entry() {
    let mut cache = JwksCache::new();
    cache.put("https://a.example/jwks", keys("a"), 10_000);
    assert!(cache.get("https://a.example/jwks", 9_000).is_some());
    assert!(cache.get("https://a.example/jwks", i64::MIN).is_some());
}

#[test]
fn extreme_times_do_not_overflow() {
    let mut cache = JwksCache::new();
    cache.put("https://a.example/jwks", keys("a"), i64::MIN);
    assert!(cache.get("https://a.example/jwks", i64::MAX).is_none());
    assert!(cache.get("https://a.example/jwks", i64::MIN + 3_599).is_some());
    assert!(cache.get("https://a.example/jwks", i64::MIN + 3_600).is_none());
    cache.put("https://a.example/jwks", keys("a"), i64::MAX);
    assert!(cache.get("https://a.example/jwks", i64::MAX).is_some());
    assert!(cache.get("https://a.example/jwks", i64::MIN).is_some());
}
