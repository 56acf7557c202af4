use base64::Engine;
use sprout_mobile::auth::keys::KeyManager;
use sprout_mobile::auth::nip42::build_auth_event;
use sprout_mobile::auth::nip98::build_nip98_auth_header;
use sprout_mobile::auth::token::{
    cached_token, expiry_entry, mint_token_body, parse_mint_response, CachedToken, KV_API_TOKEN,
    KV_TOKEN_EXPIRES_AT,
};
use sprout_mobile::error::SproutError;
use sprout_mobile::json::{JsonNumber, JsonValue};

fn to_json(v: &serde_json::Value) -> JsonValue {
    match v {
        serde_json::Value::Null => JsonValue::Null,
        serde_json::Value::Bool(b) => JsonValue::Bool(*b),
        serde_json::Value::Number(n) => {
            if let Some(u) = n.as_u64() {
                JsonValue::Number(JsonNumber::PosInt(u))
            } else if let Some(i) = n.as_i64() {
                JsonValue::Number(JsonNumber::NegInt(i))
            } else {
                JsonValue::Number(JsonNumber::Float)
            }
        }
        serde_json::Value::String(s) => JsonValue::Str(s.clone()),
        serde_json::Value::Array(a) => JsonValue::Array(a.iter().map(to_json).collect()),
        serde_json::Value::Object(o) => {
            JsonValue::Object(o.iter().map(|(k, v)| (k.clone(), to_json(v))).collect())
        }
    }
}

fn parse(text: &str) -> JsonValue {
    to_json(&serde_json::from_str::<serde_json::Value>(text).unwrap())
}

fn decode_header(header: &str) -> serde_json::Value {
    let b64_part = &header["Nostr ".len()..];
    let json_bytes = base64::engine::general_purpose::STANDARD.decode(b64_part).unwrap();
    serde_json::from_slice(&json_bytes).unwrap()
}

#[test]
fn generate_produces_valid_keypair() {
    let km = KeyManager::generate();
    assert_eq!(km.pubkey_hex().len(), 64);
    assert!(km.npub().starts_with("npub1"));
}

#[test]
fn roundtrip_nsec_export_import() {
    let km = KeyManager::generate();
    let nsec = km.export_nsec().unwrap();
    assert!(nsec.starts_with("nsec1"));

    let km2 = KeyManager::from_nsec_or_hex(&nsec).unwrap();
    assert_eq!(km.pubkey_hex(), km2.pubkey_hex());
}

#[test]
fn import_hex_secret_key() {
    let km = KeyManager::generate();
    let hex = km.secret_hex();
    let km2 = KeyManager::from_nsec_or_hex(&hex).unwrap();
    assert_eq!(km.pubkey_hex(), km2.pubkey_hex());
}

#[test]
fn import_invalid_key_returns_error() {
    let result = KeyManager::from_nsec_or_hex("not-a-valid-key");
    assert!(result.is_err());
    match result.unwrap_err() {
        SproutError::InvalidKey { .. } => {}
        e => panic!("expected InvalidKey, got {e:?}"),
    }
}

#[test]
fn identity_has_correct_fields() {
    let km = KeyManager::generate();
    let id = km.identity();
    assert_eq!(id.pubkey, km.pubkey_hex());
    assert_eq!(id.npub, km.npub());
    assert!(id.display_name.is_none());
}

#[test]
fn known_secret_gives_known_public_key() {
    // Secret key 1 has the secp256k1 generator as its public key.
    let km = KeyManager::from_nsec_or_hex(
        "0000000000000000000000000000000000000000000000000000000000000001",
    )
    .unwrap();
    assert_eq!(
        km.pubkey_hex(),
        "79be667ef9dcbbac55a06295ce870b07029bfcdb2dce28d959f2815b16f81798"
    );
    assert_eq!(
        km.secret_hex(),
        "0000000000000000000000000000000000000000000000000000000000000001"
    );
}

#[test]
fn builds_valid_auth_event() {
    let km = KeyManager::generate();
    let signed = build_auth_event(&km, "test-challenge", "wss://relay.example.com", None).unwrap();
    assert_eq!(signed.event.kind, 22242);

    let tags = &signed.event.tags;
    assert!(tags.iter().any(|t| t[0] == "challenge" && t[1] == "test-challenge"));
    assert!(tags.iter().any(|t| t[0] == "relay"));
}

#[test]
fn includes_auth_token_tag() {
    let km = KeyManager::generate();
    let signed = build_auth_event(
        &km,
        "challenge",
        "wss://relay.example.com",
        Some("sprout_abc123"),
    )
    .unwrap();
    let tags = &signed.event.tags;
    assert!(tags.iter().any(|t| t[0] == "auth_token" && t[1] == "sprout_abc123"));
}

#[test]
fn auth_event_relay_tag_is_normalized_url() {
    let km = KeyManager::generate();
    let signed = build_auth_event(&km, "c", "wss://relay.example.com", None).unwrap();
    assert_eq!(signed.event.tags[0], vec!["relay".to_string(), "wss://relay.example.com/".to_string()]);
    assert_eq!(signed.event.tags[1], vec!["challenge".to_string(), "c".to_string()]);
    assert_eq!(signed.event.tags.len(), 2);
    assert_eq!(signed.event.pubkey, km.pubkey_hex());
    assert_eq!(signed.event.content, "");
}

#[test]
fn auth_event_with_bad_relay_url_is_internal_error() {
    let km = KeyManager::generate();
    match build_auth_event(&km, "c", "not a url", None) {
        Err(SproutError::InternalError { message }) => assert!(message.starts_with("invalid relay URL: ")),
        other => panic!("expected InternalError, got {other:?}"),
    }
}

#[test]
fn builds_valid_nip98_header() {
    let km = KeyManager::generate();
    let header =
        build_nip98_auth_header(&km, "https://example.com/api/tokens", "POST", Some(b"{}")).unwrap();
    assert!(header.starts_with("Nostr "));

    let event = decode_header(&header);
    assert_eq!(event["kind"], 27235);

    let tags = event["tags"].as_array().unwrap();
    let tag_names: Vec<&str> = tags.iter().map(|t| t[0].as_str().unwrap()).collect();
    assert!(tag_names.contains(&"u"));
    assert!(tag_names.contains(&"method"));
    assert!(tag_names.contains(&"payload"));
}

#[test]
fn no_payload_tag_when_body_empty() {
    let km = KeyManager::generate();
    let header = build_nip98_auth_header(&km, "https://example.com/api/channels", "GET", None).unwrap();

    let event = decode_header(&header);
    let tags = event["tags"].as_array().unwrap();
    let tag_names: Vec<&str> = tags.iter().map(|t| t[0].as_str().unwrap()).collect();
    assert!(!tag_names.contains(&"payload"));
}

#[test]
fn nip98_payload_is_sha256_of_body() {
    let km = KeyManager::generate();
    let header = build_nip98_auth_header(&km, "https://example.com/x", "POST", Some(b"abc")).unwrap();
    let event = decode_header(&header);
    let tags = event["tags"].as_array().unwrap();
    assert_eq!(tags[2][0], "payload");
    assert_eq!(tags[2][1], "ba7816bf8f01cfea414140de5dae2223b00361a396177a9cb410ff61f20015ad");
    assert_eq!(event["pubkey"], km.pubkey_hex());
}

#[test]
fn nip98_empty_body_has_no_payload_tag() {
    let km = KeyManager::generate();
    let header = build_nip98_auth_header(&km, "https://example.com/x", "POST", Some(b"")).unwrap();
    let event = decode_header(&header);
    assert_eq!(event["tags"].as_array().unwrap().len(), 2);
}

#[test]
fn mint_body_has_expected_fields() {
    let body = mint_token_body("mobile-app");
    assert_eq!(body.str_member("name"), Some("mobile-app".to_string()));
    assert!(body.array_member("scopes").unwrap().len() >= 8);
    assert_eq!(body.u64_member("expires_in_days"), Some(7));
}

#[test]
fn mint_body_lists_scopes_in_order() {
    let body = mint_token_body("n");
    let scopes: Vec<String> =
        body.array_member("scopes").unwrap().iter().map(|s| s.as_str().unwrap().to_string()).collect();
    assert_eq!(
        scopes,
        vec![
            "messages:read",
            "messages:write",
            "channels:read",
            "channels:write",
            "users:read",
            "users:write",
            "files:read",
            "files:write"
        ]
    );
}

#[test]
fn parse_mint_response_extracts_token() {
    let json = parse(r#"{"token": "sprout_deadbeef", "expires_at": "2026-12-31T23:59:59Z"}"#);
    let (token, expires_at) = parse_mint_response(&json).unwrap();
    assert_eq!(token, "sprout_deadbeef");
    assert!(expires_at.is_some());
}

#[test]
fn parse_mint_response_reads_expiry_time() {
    let json = parse(r#"{"token": "t", "expires_at": "2026-12-31T23:59:59Z"}"#);
    let (_, expires_at) = parse_mint_response(&json).unwrap();
    assert_eq!(expires_at, Some(1798761599));
    let json = parse(r#"{"token": "t", "expires_at": "soon"}"#);
    assert_eq!(parse_mint_response(&json).unwrap().1, None);
    let json = parse(r#"{"token": "t"}"#);
    assert_eq!(parse_mint_response(&json).unwrap().1, None);
}

#[test]
fn parse_mint_response_without_token_is_auth_failure() {
    let json = parse(r#"{"expires_at": "2026-12-31T23:59:59Z"}"#);
    match parse_mint_response(&json) {
        Err(SproutError::AuthFailed { message }) => assert_eq!(message, "mint response missing 'token' field"),
        other => panic!("expected AuthFailed, got {other:?}"),
    }
    let json = parse(r#"{"token": 5}"#);
    assert!(matches!(parse_mint_response(&json), Err(SproutError::AuthFailed { .. })));
}

#[test]
fn cache_keys_are_fixed() {
    assert_eq!(KV_API_TOKEN, "api_token");
    assert_eq!(KV_TOKEN_EXPIRES_AT, "api_token_expires_at");
}

#[test]
fn cached_token_before_expiry_is_valid() {
    let entry = expiry_entry(Some(9999999999));
    assert_eq!(entry, Some("9999999999".to_string()));
    match cached_token(Some("sprout_abc123".to_string()), entry, 1_700_000_000) {
        CachedToken::Valid(t) => assert_eq!(t, "sprout_abc123"),
        other => panic!("expected a valid token, got {other:?}"),
    }
}

#[test]
fn cached_token_from_expiry_on_is_expired() {
    let entry = expiry_entry(Some(1));
    assert!(matches!(cached_token(Some("sprout_old".to_string()), entry, 1_700_000_000), CachedToken::Expired));
    // Expiry is inclusive: at the expiry second the token is gone.
    assert!(matches!(cached_token(Some("t".to_string()), Some("100".to_string()), 100), CachedToken::Expired));
}

#[test]
fn no_cached_token_is_missing() {
    assert!(matches!(cached_token(None, None, 1_700_000_000), CachedToken::Missing));
}

#[test]
fn cached_token_without_expiry_never_expires() {
    assert_eq!(expiry_entry(None), None);
    assert!(matches!(cached_token(Some("t".to_string()), None, i64::MAX), CachedToken::Valid(_)));
    assert!(matches!(cached_token(Some("t".to_string()), Some("garbage".to_string()), 5), CachedToken::Valid(_)));
    assert!(matches!(cached_token(None, Some("1".to_string()), 5), CachedToken::Missing));
}

#[test]
fn negative_expiry_is_written_in_decimal() {
    assert_eq!(expiry_entry(Some(-42)), Some("-42".to_string()));
    assert!(matches!(cached_token(Some("t".to_string()), Some("-42".to_string()), -43), CachedToken::Valid(_)));
}
