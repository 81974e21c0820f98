use bearer_auth::cache::JwksCache;
use bearer_auth::error::FetchError;
use bearer_auth::fetch::{key_set_of, store_outcome, HttpOutcome};
use bearer_auth::jwk::{KeySet, ParsedKey};

const JWKS: &str = r#"{
            "keys": [{
                "kty": "RSA",
                "kid": "test-key-id",
                "n": "test-n",
                "e": "AQAB"
            }]
        }"#;

fn response(status: u16, body: &str) -> HttpOutcome {
    HttpOutcome::Response { status, body: body.to_string() }
}

#[test]
fn fetch_test_fetch_success() {
    let mut cache = JwksCache::new();
    let uri = "http://127.0.0.1:9000";

    let result = store_outcome(&mut cache, uri, &response(200, JWKS), 0);
    assert!(result.is_ok());
    let keys = cache.get(uri, 0).unwrap();
    assert_eq!(keys.len(), 1);
    assert_eq!(keys.key(0).unwrap().kid, "test-key-id");
    assert_eq!(keys.key(0).unwrap().n, "test-n");
    assert_eq!(keys.key(0).unwrap().e, "AQAB");

    let second = cache.get(uri, 1).unwrap();
    assert_eq!(second.len(), 1);
    assert_eq!(second.key(0).unwrap().kid, "test-key-id");
}

#[test]
fn fetch_test_fetch_invalid_json() {
    let mut cache = JwksCache::new();
    let result = store_outcome(&mut cache, "http://127.0.0.1:9000", &response(200, "invalid json"), 0);
    assert!(matches!(result.unwrap_err(), FetchError::ParseFailed));
}

#[test]
fn fetch_test_fetch_server_error() {
    let mut cache = JwksCache::new();
    let result = store_outcome(&mut cache, "http://127.0.0.1:9000", &response(500, ""), 0);
    assert!(matches!(result.unwrap_err(), FetchError::FetchFailed(_)));
}

#[test]
fn test_fetch_network_error() {
    let mut cache = JwksCache::new();
    let result = store_outcome(&mut cache, "http://invalid-url", &HttpOutcome::Failed, 0);
    assert!(matches!(result.unwrap_err(), FetchError::FetchFailed(_)));
}

#[test]
fn jwks_test_fetch_success() {
    let result = key_set_of(&response(200, JWKS));
    assert!(result.is_ok());

    let second_result = key_set_of(&response(200, JWKS));
    assert!(second_result.is_ok());
}

#[test]
fn jwks_test_fetch_invalid_json() {
    let result = key_set_of(&response(200, "invalid json"));
    assert!(result.is_err());

    let err = result.unwrap_err();
    assert!(matches!(err, FetchError::ParseFailed));
}

#[test]
fn jwks_test_fetch_server_error() {
    let result = key_set_of(&response(500, ""));
    assert!(result.is_err());

    let err = result.unwrap_err();
    assert!(matches!(err, FetchError::FetchFailed(Some(500))));
}

#[test]
fn each_failure_has_its_own_class() {
    assert_eq!(key_set_of(&HttpOutcome::Failed).unwrap_err(), FetchError::FetchFailed(None));
    assert_eq!(key_set_of(&response(500, JWKS)).unwrap_err(), FetchError::FetchFailed(Some(500)));
    assert_eq!(key_set_of(&response(404, JWKS)).unwrap_err(), FetchError::FetchFailed(Some(404)));
    assert_eq!(key_set_of(&response(200, "{")).unwrap_err(), FetchError::ParseFailed);
}

#[test]
fn only_2xx_is_success() {
    assert_eq!(key_set_of(&response(199, JWKS)).unwrap_err(), FetchError::FetchFailed(Some(199)));
    assert!(key_set_of(&response(200, JWKS)).is_ok());
    assert!(key_set_of(&response(204, JWKS)).is_ok());
    assert!(key_set_of(&response(299, JWKS)).is_ok());
    assert_eq!(key_set_of(&response(300, JWKS)).unwrap_err(), FetchError::FetchFailed(Some(300)));
    assert_eq!(key_set_of(&response(304, JWKS)).unwrap_err(), FetchError::FetchFailed(Some(304)));
    assert_eq!(key_set_of(&response(0, JWKS)).unwrap_err(), FetchError::FetchFailed(Some(0)));
    assert_eq!(
        key_set_of(&response(u16::MAX, JWKS)).unwrap_err(),
        FetchError::FetchFailed(Some(u16::MAX))
    );
}

#[test]
fn a_failed_fetch_leaves_the_cache_as_it_was() {
    let mut cache = JwksCache::new();
    let uri = "https://issuer.example/jwks";
    assert!(store_outcome(&mut cache, uri, &response(200, JWKS), 0).is_ok());
    assert_eq!(
        store_outcome(&mut cache, uri, &response(503, ""), 100).unwrap_err(),
        FetchError::FetchFailed(Some(503))
    );
    assert_eq!(store_outcome(&mut cache, uri, &HttpOutcome::Failed, 100).unwrap_err(), FetchError::FetchFailed(None));
    assert_eq!(
        store_outcome(&mut cache, uri, &response(200, "[]"), 100).unwrap_err(),
        FetchError::ParseFailed
    );
    assert_eq!(cache.get(uri, 3_599).unwrap().key(0).unwrap().kid, "test-key-id");
    assert!(cache.get(uri, 3_600).is_none());
}

#[test]
fn keys_come_in_document_order() {
    let body = r#"{"keys":[
        {"kty":"RSA","kid":"b","n":"n-b","e":"AQAB","alg":"RS256","use":"sig"},
        {"kty":"RSA","kid":"a","n":"n-a","e":"AQAB"},
        {"kty":"RSA","kid":"b","n":"n-b2","e":"AQAB"}
    ]}"#;
    let keys = KeySet::parse(body).unwrap();
    assert_eq!(keys.len(), 3);
    assert_eq!(keys.key(0).unwrap().kid, "b");
    assert_eq!(keys.key(1).unwrap().kid, "a");
    assert_eq!(keys.key(2).unwrap().n, "n-b2");
    assert!(keys.key(3).is_none());
    assert_eq!(keys.find("b").unwrap().n, "n-b");
    assert_eq!(keys.find("a").unwrap().n, "n-a");
    assert!(keys.find("c").is_none());
    assert!(keys.find("A").is_none());
    assert!(keys.find("").is_none());
}

#[test]
fn an_empty_key_set_is_a_key_set() {
    let keys = KeySet::parse(r#"{"keys":[]}"#).unwrap();
    assert_eq!(keys.len(), 0);
    assert!(keys.find("any").is_none());
}

#[test]
fn a_document_of_another_shape_is_a_parse_failure() {
    for body in [
        "",
        "null",
        "[]",
        "{}",
        r#"{"keys":{}}"#,
        r#"{"keys":[{}]}"#,
        r#"{"keys":[{"kty":"RSA","kid":"k","e":"AQAB"}]}"#,
        r#"{"keys":[{"kty":"RSA","kid":"k","n":"n"}]}"#,
        r#"{"keys":[{"kid":"k","n":"n","e":"AQAB"}]}"#,
        r#"{"keys":[{"kty":"RSA","n":"n","e":"AQAB"}]}"#,
        r#"{"keys":[{"kty":"RSA","kid":7,"n":"n","e":"AQAB"}]}"#,
        r#"{"keys":[{"kty":"oct","kid":"k","k":"c2VjcmV0"}]}"#,
        r#"{"keys":[{"kty":"EC","kid":"k","crv":"P-256","x":"x","y":"y"}]}"#,
        r#"{"keys":[{"kty":"RSA","kid":"ok","n":"n","e":"AQAB"},{"kty":"RSA","n":"n","e":"AQAB"}]}"#,
    ] {
        assert_eq!(KeySet::parse(body).unwrap_err(), FetchError::ParseFailed, "{}", body);
    }
}

#[test]
fn from_parsed_checks_every_key() {
    let good = ParsedKey {
        kid: Some("k".to_string()),
        rsa: Some(("n".to_string(), "e".to_string())),
    };
    let no_kid = ParsedKey { kid: None, rsa: Some(("n".to_string(), "e".to_string())) };
    let no_rsa = ParsedKey { kid: Some("k".to_string()), rsa: None };

    let set = KeySet::from_parsed(&vec![good.clone(), good.clone()]).unwrap();
    assert_eq!(set.len(), 2);
    assert_eq!(set.key(1).unwrap().kid, "k");
    assert_eq!(set.key(1).unwrap().n, "n");
    assert_eq!(set.key(1).unwrap().e, "e");
    assert!(KeySet::from_parsed(&Vec::new()).unwrap().len() == 0);
    assert!(KeySet::from_parsed(&vec![good.clone(), no_kid]).is_none());
    assert!(KeySet::from_parsed(&vec![no_rsa, good]).is_none());
}
