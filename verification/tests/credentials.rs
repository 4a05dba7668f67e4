use freitool::base64url::b64url;
use freitool::errors::StoreError;
use freitool::json::Json;
use freitool::jwt::{claims_json, Claims};
use freitool::store::{parse_key_id, AppStore, GooglePlay};
use freitool::textfmt::{dec_u64, escape_json};

fn obj(entries: Vec<(&str, Json)>) -> Json {
    Json::Obj(entries.into_iter().map(|(k, v)| (k.to_string(), v)).collect())
}

fn s(x: &str) -> Json {
    Json::Str(x.to_string())
}

#[test]
fn key_id_is_read_out_of_the_file_name() {
    assert_eq!(parse_key_id("AuthKey_ABC123.p8"), Some("ABC123".to_string()));
    assert_eq!(parse_key_id("/keys/team/AuthKey_X9.p8"), Some("X9".to_string()));
}

#[test]
fn malformed_key_paths_match_nothing() {
    assert_eq!(parse_key_id("AuthKey.p8"), None, "missing underscore");
    assert_eq!(parse_key_id("AuthKey__ID.p8"), None, "doubled underscore");
    assert_eq!(parse_key_id("AuthKey_ID.pem"), None, "no .p8 suffix");
    assert_eq!(parse_key_id("AuthKey_A_B.p8"), None, "second underscore");
    assert_eq!(parse_key_id("AuthKey_A.B.p8"), None, "dot inside the identifier");
    assert_eq!(parse_key_id("AuthKey_.p8"), None, "empty identifier");
    assert_eq!(parse_key_id("authkey_ID.p8"), None, "prefix case matters");
    assert_eq!(parse_key_id(""), None);
}

#[test]
fn app_store_new_requires_each_part() {
    let made = AppStore::new(
        Some("AuthKey_K.p8".to_string()),
        Some("issuer".to_string()),
        Some("app".to_string()),
    )
    .unwrap();
    assert_eq!(made.key_path, "AuthKey_K.p8");
    assert_eq!(made.issuer_id, "issuer");
    assert_eq!(made.app_id, "app");
    assert_eq!(made.token, None);
    assert_eq!(made.token_expiration, None);

    assert_eq!(
        AppStore::new(None, Some("i".to_string()), Some("a".to_string())).unwrap_err(),
        "Key path is required"
    );
    assert_eq!(
        AppStore::new(Some("k".to_string()), None, Some("a".to_string())).unwrap_err(),
        "Issuer ID is required"
    );
    assert_eq!(
        AppStore::new(Some("k".to_string()), Some("i".to_string()), None).unwrap_err(),
        "App ID is required"
    );
}

#[test]
fn google_play_new_requires_each_part() {
    let made = GooglePlay::new(
        Some("sa.json".to_string()),
        Some("com.example.app".to_string()),
        Some("internal".to_string()),
    )
    .unwrap();
    assert_eq!(made.key_path, "sa.json");
    assert_eq!(made.package_name, "com.example.app");
    assert_eq!(made.track, "internal");
    assert_eq!(made.token, None);

    assert_eq!(
        GooglePlay::new(None, Some("p".to_string()), Some("t".to_string())).unwrap_err(),
        "Key path is required"
    );
    assert_eq!(
        GooglePlay::new(Some("k".to_string()), None, Some("t".to_string())).unwrap_err(),
        "Package name is required"
    );
    assert_eq!(
        GooglePlay::new(Some("k".to_string()), Some("p".to_string()), None).unwrap_err(),
        "Track is required"
    );
}

#[test]
fn login_on_malformed_path_fails_without_touching_the_cache() {
    let mut store = AppStore::new(
        Some("/keys/notakey.p8".to_string()),
        Some("issuer".to_string()),
        Some("app".to_string()),
    )
    .unwrap();
    let r = store.login("irrelevant key material", 1_000);
    assert_eq!(r.unwrap_err(), StoreError::MalformedKeyPath);
    assert_eq!(store.token, None);
    assert_eq!(store.token_expiration, None);
    assert_eq!(
        StoreError::MalformedKeyPath.message(),
        "Invalid key path name. It should be AuthKey_{ID}.p8"
    );
}

#[test]
fn login_with_unusable_key_material_fails_signing() {
    let mut store = AppStore::new(
        Some("AuthKey_GOOD.p8".to_string()),
        Some("issuer".to_string()),
        Some("app".to_string()),
    )
    .unwrap();
    let r = store.login("not a pem document", 1_000);
    assert!(matches!(r.unwrap_err(), StoreError::SigningFailed(_)));
    assert_eq!(store.token, None);
}

#[test]
fn obtain_hands_out_a_fresh_cached_credential() {
    let mut store = AppStore::new(
        Some("AuthKey_GOOD.p8".to_string()),
        Some("issuer".to_string()),
        Some("app".to_string()),
    )
    .unwrap();
    store.token = Some("cached-token".to_string());
    store.token_expiration = Some(1_000);

    let c = store.obtain("irrelevant", 999).unwrap();
    assert_eq!(c.token, "cached-token");
    assert_eq!(c.expires_at, 1_000);
    assert!(c.expires_at > 999);

    // At the expiry instant the cache no longer counts; the mint is
    // attempted afresh and fails on the unusable key material.
    let r = store.obtain("irrelevant", 1_000);
    assert!(matches!(r.unwrap_err(), StoreError::SigningFailed(_)));
}

#[test]
fn obtain_on_malformed_path_fails_without_a_fresh_cache() {
    let mut store = AppStore::new(
        Some("badname.p8".to_string()),
        Some("issuer".to_string()),
        Some("app".to_string()),
    )
    .unwrap();
    assert_eq!(store.obtain("irrelevant", 5).unwrap_err(), StoreError::MalformedKeyPath);
}

#[test]
fn is_logged_in_tracks_the_expiry_window() {
    let mut store = AppStore::new(
        Some("AuthKey_K.p8".to_string()),
        Some("issuer".to_string()),
        Some("app".to_string()),
    )
    .unwrap();
    assert!(!store.is_logged_in(0));
    store.token = Some("t".to_string());
    store.token_expiration = Some(100);
    assert!(store.is_logged_in(100));
    assert!(!store.is_logged_in(101));
}

#[test]
fn google_play_key_file_needs_both_fields() {
    let play = GooglePlay::new(
        Some("sa.json".to_string()),
        Some("com.example.app".to_string()),
        Some("internal".to_string()),
    )
    .unwrap();
    let incomplete = obj(vec![("client_email", s("robot@example.iam"))]);
    let r = play.get_private_token(&incomplete, 10);
    assert!(matches!(r.unwrap_err(), StoreError::MalformedKeyFile(_)));

    let unusable = obj(vec![
        ("client_email", s("robot@example.iam")),
        ("private_key", s("not a pem document")),
    ]);
    let r = play.get_private_token(&unusable, 10);
    assert!(matches!(r.unwrap_err(), StoreError::SigningFailed(_)));
}

#[test]
fn google_play_login_caches_the_bearer() {
    let mut play = GooglePlay::new(
        Some("sa.json".to_string()),
        Some("com.example.app".to_string()),
        Some("internal".to_string()),
    )
    .unwrap();
    assert!(!play.is_logged_in());
    play.login("bearer-abc".to_string()).unwrap();
    assert!(play.is_logged_in());
    assert_eq!(play.token(), Some("bearer-abc".to_string()));
}

#[test]
fn claims_serialize_in_fixed_order() {
    let c = Claims {
        iss: "a@b.c".to_string(),
        iat: 5,
        exp: 10,
        aud: "aud".to_string(),
        scope: None,
    };
    assert_eq!(
        String::from_utf8(claims_json(&c)).unwrap(),
        "{\"iss\":\"a@b.c\",\"iat\":5,\"exp\":10,\"aud\":\"aud\"}"
    );

    let c = Claims {
        iss: "robot".to_string(),
        iat: 1700000000,
        exp: 1700003600,
        aud: "https://oauth2.googleapis.com/token".to_string(),
        scope: Some("https://www.googleapis.com/auth/androidpublisher".to_string()),
    };
    assert_eq!(
        String::from_utf8(claims_json(&c)).unwrap(),
        "{\"iss\":\"robot\",\"iat\":1700000000,\"exp\":1700003600,\"aud\":\"https://oauth2.googleapis.com/token\",\"scope\":\"https://www.googleapis.com/auth/androidpublisher\"}"
    );
}

#[test]
fn claims_strings_are_escaped() {
    let c = Claims {
        iss: "a\"b\\c\nd".to_string(),
        iat: 0,
        exp: 1,
        aud: "x".to_string(),
        scope: None,
    };
    assert_eq!(
        String::from_utf8(claims_json(&c)).unwrap(),
        "{\"iss\":\"a\\\"b\\\\c\\u000ad\",\"iat\":0,\"exp\":1,\"aud\":\"x\"}"
    );
}

#[test]
fn decimal_spelling_is_exact() {
    assert_eq!(dec_u64(0), b"0".to_vec());
    assert_eq!(dec_u64(7), b"7".to_vec());
    assert_eq!(dec_u64(1234567890), b"1234567890".to_vec());
    assert_eq!(dec_u64(u64::MAX), b"18446744073709551615".to_vec());
}

#[test]
fn escape_json_handles_the_special_bytes() {
    assert_eq!(escape_json(&b"plain".to_vec()), b"plain".to_vec());
    assert_eq!(escape_json(&b"a\"b".to_vec()), b"a\\\"b".to_vec());
    assert_eq!(escape_json(&b"a\\b".to_vec()), b"a\\\\b".to_vec());
    assert_eq!(escape_json(&b"a\nb".to_vec()), b"a\\u000ab".to_vec());
    assert_eq!(escape_json(&vec![0x1f]), b"\\u001f".to_vec());
}

#[test]
fn base64url_matches_the_reference_vectors() {
    assert_eq!(b64url(&b"".to_vec()), b"".to_vec());
    assert_eq!(b64url(&b"f".to_vec()), b"Zg".to_vec());
    assert_eq!(b64url(&b"fo".to_vec()), b"Zm8".to_vec());
    assert_eq!(b64url(&b"foo".to_vec()), b"Zm9v".to_vec());
    assert_eq!(b64url(&b"foob".to_vec()), b"Zm9vYg".to_vec());
    assert_eq!(b64url(&b"fooba".to_vec()), b"Zm9vYmE".to_vec());
    assert_eq!(b64url(&b"foobar".to_vec()), b"Zm9vYmFy".to_vec());
    assert_eq!(b64url(&vec![255, 255, 255]), b"____".to_vec());
    assert_eq!(b64url(&vec![251, 239]), b"--8".to_vec());
}
