use base64::Engine;
use sprout_mobile::auth::keys::KeyManager;
use sprout_mobile::client::{parse_event_id, parse_uuid, require_token, sent_message, starting_token, thread_ref};
use sprout_mobile::auth::token::CachedToken;
use sprout_mobile::error::SproutError;
use sprout_mobile::http::media::{build_blossom_auth_at, prepare_upload, upload_result};
use sprout_mobile::http::paths::{
    channel_members_path, channel_path, message_cursor, messages_path, page_size, presence_body,
    pubkeys_body, reactions_path, search_path, thread_path, user_profile_path, user_search_path,
};
use sprout_mobile::http::responses::{
    channel_detail, channel_list, dm_detail, dm_list, home_feed, member_list, message_page,
    profile_detail, profiles_batch, reaction_list, search_hits, thread_replies, user_list,
};
use sprout_mobile::http::{
    bearer_header, endpoint_url, forwarded_proto, handle_response, normalize_relay_url, relay_error,
};
use sprout_mobile::json::{JsonNumber, JsonValue};
use sprout_mobile::types::{FeedCategory, PresenceStatus, SendMessageParams};

fn to_json(v: &serde_json::Value) -> JsonValue {
    match v {
        serde_json::Value::Null => JsonValue::Null,
        serde_json::Value::Bool(b) => JsonValue::Bool(*b),
        serde_json::Value::Number(n) => {
            if let Some(u) = n.as_u64() {
                JsonValue::Number(JsonNumber::PosInt(u))
            } else if let Some(i) = n.as_i64() {
                JsonValue::Number(JsonNumber::NegInt(i))
            } else {
                JsonValue::Number(JsonNumber::Float)
            }
        }
        serde_json::Value::String(s) => JsonValue::Str(s.clone()),
        serde_json::Value::Array(a) => JsonValue::Array(a.iter().map(to_json).collect()),
        serde_json::Value::Object(o) => {
            JsonValue::Object(o.iter().map(|(k, v)| (k.clone(), to_json(v))).collect())
        }
    }
}

fn parse(text: &str) -> JsonValue {
    to_json(&serde_json::from_str::<serde_json::Value>(text).unwrap())
}

#[test]
fn normalize_ws_to_http() {
    assert_eq!(normalize_relay_url("ws://localhost:3000"), "http://localhost:3000");
    assert_eq!(normalize_relay_url("wss://relay.example.com"), "https://relay.example.com");
    assert_eq!(normalize_relay_url("wss://relay.example.com/"), "https://relay.example.com");
}

#[test]
fn http_urls_pass_through() {
    assert_eq!(normalize_relay_url("https://relay.example.com"), "https://relay.example.com");
}

#[test]
fn normalize_drops_every_trailing_slash() {
    assert_eq!(normalize_relay_url("ws://h///"), "http://h");
    assert_eq!(normalize_relay_url("ws://a/wss://b"), "http://a/https://b");
    for url in ["wss://r.example/", "ws://h//", "https://x", "wwss://y/", ""] {
        let once = normalize_relay_url(url);
        assert_eq!(normalize_relay_url(&once), once);
        assert!(!once.contains("ws://") && !once.contains("wss://") && !once.ends_with('/'));
    }
}

#[test]
fn request_urls_and_headers() {
    assert_eq!(endpoint_url("https://r.example", "/api/dms"), "https://r.example/api/dms");
    assert_eq!(bearer_header("tok"), "Bearer tok");
    assert_eq!(forwarded_proto("https://r/api"), "https");
    assert_eq!(forwarded_proto("http://r/api"), "http");
}

#[test]
fn relay_error_maps_status_codes() {
    let body = r#"{"message": "nope"}"#;
    let json = parse(body);
    assert!(matches!(relay_error(401, body, Some(&json)), SproutError::AuthFailed { message } if message == "nope"));
    assert!(matches!(relay_error(403, body, Some(&json)), SproutError::PermissionDenied { message } if message == "nope"));
    assert!(matches!(relay_error(404, body, Some(&json)), SproutError::NotFound { entity } if entity == "nope"));
    assert!(matches!(relay_error(500, body, Some(&json)),
        SproutError::RelayError { status: 500, message } if message == "nope"));
}

#[test]
fn relay_error_message_falls_back() {
    let body = r#"{"error": "bad"}"#;
    assert!(matches!(relay_error(400, body, Some(&parse(body))), SproutError::RelayError { message, .. } if message == "bad"));
    let body = r#"{"message": 3, "error": "bad"}"#;
    assert!(matches!(relay_error(400, body, Some(&parse(body))), SproutError::RelayError { message, .. } if message == body));
    assert!(matches!(relay_error(502, "gateway", None), SproutError::RelayError { message, .. } if message == "gateway"));
}

#[test]
fn handle_response_reads_bodies() {
    assert!(matches!(handle_response(204, "", Err("EOF".to_string())), Ok(JsonValue::Null)));
    match handle_response(200, "[1]", Ok(parse("[1]"))) {
        Ok(JsonValue::Array(items)) => assert_eq!(items.len(), 1),
        other => panic!("unexpected {other:?}"),
    }
    match handle_response(200, "oops", Err("expected value".to_string())) {
        Err(SproutError::InternalError { message }) => assert_eq!(message, "invalid JSON response: expected value"),
        other => panic!("unexpected {other:?}"),
    }
    assert!(matches!(handle_response(401, "denied", Err("x".to_string())),
        Err(SproutError::AuthFailed { message }) if message == "denied"));
}

#[test]
fn endpoint_paths() {
    assert_eq!(channel_path("c1"), "/api/channels/c1");
    assert_eq!(channel_members_path("c1"), "/api/channels/c1/members");
    assert_eq!(messages_path("c1", None, 50), "/api/channels/c1/messages?limit=50");
    assert_eq!(messages_path("c1", Some("1700"), 20), "/api/channels/c1/messages?limit=20&cursor=1700");
    assert_eq!(thread_path("c1", "r"), "/api/channels/c1/threads/r");
    assert_eq!(reactions_path("e"), "/api/messages/e/reactions");
    assert_eq!(user_profile_path("pk"), "/api/users/pk/profile");
    assert_eq!(search_path("a b&c"), "/api/search?q=a%20b%26c&limit=50");
    assert_eq!(user_search_path("é"), "/api/users/search?q=%C3%A9");
    assert_eq!(page_size(None), 50);
    assert_eq!(page_size(Some(7)), 7);
    assert_eq!(message_cursor(Some(-5)), Some("-5".to_string()));
    assert_eq!(message_cursor(None), None);
}

#[test]
fn request_bodies() {
    let body = pubkeys_body(&["a".to_string(), "b".to_string()]);
    let keys: Vec<&str> = body.array_member("pubkeys").unwrap().iter().map(|v| v.as_str().unwrap()).collect();
    assert_eq!(keys, vec!["a", "b"]);
    assert_eq!(presence_body(&PresenceStatus::Away).str_member("status"), Some("away".to_string()));
    assert_eq!(presence_body(&PresenceStatus::Offline).str_member("status"), Some("offline".to_string()));
}

#[test]
fn channel_answers() {
    let list = channel_list(&parse(r#"[{"id": "a", "name": "x"}, {"id": "b"}, {"id": "c", "name": "y"}]"#)).unwrap();
    let ids: Vec<&str> = list.iter().map(|c| c.id.as_str()).collect();
    assert_eq!(ids, vec!["a", "c"]);
    match channel_list(&parse(r#"{"id": "a"}"#)) {
        Err(SproutError::InternalError { message }) => assert_eq!(message, "expected array from /api/channels"),
        other => panic!("unexpected {other:?}"),
    }
    assert_eq!(channel_detail(&parse(r#"{"id": "a", "name": "x"}"#)).unwrap().name, "x");
    assert!(matches!(channel_detail(&parse("{}")),
        Err(SproutError::InternalError { message }) if message == "failed to parse channel response"));
    assert_eq!(member_list(&parse(r#"[{"pubkey": "p"}, {}]"#)).unwrap().len(), 1);
    assert!(matches!(member_list(&JsonValue::Null),
        Err(SproutError::InternalError { message }) if message == "expected array from members endpoint"));
}

#[test]
fn dm_answers() {
    assert_eq!(dm_list(&parse(r#"[{"id": "d1"}, {"x": 1}]"#)).unwrap().len(), 1);
    assert!(matches!(dm_list(&parse("{}")),
        Err(SproutError::InternalError { message }) if message == "expected array from /api/dms"));
    assert_eq!(dm_detail(&parse(r#"{"id": "d1"}"#)).unwrap().channel_id, "d1");
    assert!(matches!(dm_detail(&parse("[]")),
        Err(SproutError::InternalError { message }) if message == "failed to parse DM response"));
}

#[test]
fn message_answers() {
    let msgs = r#"[{"id": "e1", "pubkey": "p", "kind": 9, "content": "a", "created_at": 1, "tags": []},
                   {"id": "e2", "pubkey": "p", "kind": 9, "content": "b", "created_at": 2, "tags": []}]"#;
    let page = message_page(&parse(msgs), 2);
    assert_eq!(page.messages.len(), 2);
    assert!(page.has_more);
    let page = message_page(&parse(msgs), 50);
    assert!(!page.has_more);
    let page = message_page(&parse("{}"), 0);
    assert_eq!(page.messages.len(), 0);
    assert!(page.has_more);

    let thread = thread_replies(&parse(&format!(r#"{{"root": {{}}, "replies": {msgs}}}"#)));
    assert_eq!(thread[1].event_id, "e2");
    assert!(thread_replies(&parse("[]")).is_empty());

    let reactions = reaction_list(&parse(r#"[{"emoji": "+", "count": 4294967298}, {"emoji": "-"}]"#));
    assert_eq!(reactions.len(), 1);
    assert_eq!(reactions[0].count, 2);
    assert!(!reactions[0].reacted_by_me);
}

#[test]
fn user_answers() {
    assert_eq!(profile_detail(&parse(r#"{"pubkey": "pk"}"#), "pk").unwrap().pubkey, "pk");
    match profile_detail(&parse("{}"), "pk") {
        Err(SproutError::NotFound { entity }) => assert_eq!(entity, "profile for pk"),
        other => panic!("unexpected {other:?}"),
    }
    let batch = profiles_batch(&parse(
        r#"{"profiles": {"k1": {"pubkey": "", "display_name": "A"}, "k2": {"pubkey": "p2"}, "k3": {"display_name": "C"}}}"#,
    ));
    let keys: Vec<&str> = batch.iter().map(|p| p.pubkey.as_str()).collect();
    assert_eq!(keys, vec!["k1", "p2", "k3"]);
    assert_eq!(batch[2].display_name, Some("C".to_string()));
    let batch = profiles_batch(&parse(r#"{"profiles":{"aa":{"display_name":"A"}, "bb": 5}}"#));
    assert_eq!(batch.len(), 1);
    assert_eq!(batch[0].pubkey, "aa");
    assert_eq!(batch[0].display_name, Some("A".to_string()));
    assert_eq!(batch[0].picture, None);
    assert!(profiles_batch(&parse(r#"{"profiles": []}"#)).is_empty());
    let batch = profiles_batch(&parse(
        r#"{"profiles": {"k1": {"pubkey": 7}, "k2": {"pubkey": null}, "k3": {"pubkey": "p3"}}}"#,
    ));
    let keys: Vec<&str> = batch.iter().map(|p| p.pubkey.as_str()).collect();
    assert_eq!(keys, vec!["p3"]);
    assert_eq!(user_list(&parse(r#"[{"pubkey": "a"}, {"pubkey": "b"}]"#)).len(), 2);
    assert!(user_list(&parse(r#"{"pubkey": "a"}"#)).is_empty());
}

#[test]
fn search_answers() {
    let hits = search_hits(&parse(r#"{"hits": [{"event_id": "e", "channel_id": "c"}, {"event_id": "x"}]}"#));
    assert_eq!(hits.len(), 1);
    assert_eq!(hits[0].channel_name, "");
    assert!(search_hits(&parse(r#"{"found": 0}"#)).is_empty());
}

#[test]
fn home_feed_keeps_section_order() {
    let feed = home_feed(&parse(
        r#"{"feed": {"activity": [{"id": "a1"}], "mentions": [{"id": "m1"}, {"nope": 1}, {"event_id": "m2"}],
                     "agent_activity": [{"id": "g1", "kind": 40099}], "needs_action": [{"id": "n1"}]}}"#,
    ));
    let ids: Vec<&str> = feed.items.iter().map(|i| i.event_id.as_str()).collect();
    assert_eq!(ids, vec!["m1", "m2", "n1", "a1", "g1"]);
    let cats: Vec<FeedCategory> = feed.items.iter().map(|i| i.category).collect();
    assert_eq!(
        cats,
        vec![
            FeedCategory::Mention,
            FeedCategory::Mention,
            FeedCategory::NeedsAction,
            FeedCategory::Activity,
            FeedCategory::AgentActivity
        ]
    );
    assert_eq!(feed.total, 5);
    assert_eq!(feed.items[4].kind, 40099);
    let empty = home_feed(&parse("{}"));
    assert_eq!(empty.total, 0);
}

#[test]
fn upload_answer_defaults() {
    let r = upload_result(&parse(r#"{"url": "https://cdn/x", "size": 12, "dim": "1x1"}"#), "abc");
    assert_eq!(r.url, "https://cdn/x");
    assert_eq!(r.sha256, "abc");
    assert_eq!(r.size, 12);
    assert_eq!(r.mime_type, "application/octet-stream");
    assert_eq!(r.dimensions, Some("1x1".to_string()));
    assert_eq!(r.blurhash, None);
    let r = upload_result(&parse(r#"{"sha256": "def", "type": "image/png", "thumb": "t"}"#), "abc");
    assert_eq!(r.sha256, "def");
    assert_eq!(r.mime_type, "image/png");
    assert_eq!(r.thumbnail_url, Some("t".to_string()));
    assert_eq!(r.url, "");
}

#[test]
fn blossom_auth_event_has_upload_tags() {
    let km = KeyManager::generate();
    let header = build_blossom_auth_at(&km, "abcd", 1000).unwrap();
    assert!(header.starts_with("Nostr "));
    let bytes = base64::engine::general_purpose::STANDARD.decode(&header["Nostr ".len()..]).unwrap();
    let event: serde_json::Value = serde_json::from_slice(&bytes).unwrap();
    assert_eq!(event["kind"], 24242);
    assert_eq!(event["content"], "Upload sprout-mobile");
    assert_eq!(event["tags"][0][0], "t");
    assert_eq!(event["tags"][0][1], "upload");
    assert_eq!(event["tags"][1][1], "abcd");
    assert_eq!(event["tags"][2][0], "expiration");
    assert_eq!(event["tags"][2][1], "1300");
}

#[test]
fn blossom_auth_refuses_a_clock_past_the_last_expiration() {
    let km = KeyManager::generate();
    match build_blossom_auth_at(&km, "abcd", u64::MAX - 299) {
        Err(SproutError::InternalError { message }) => {
            assert_eq!(message, "clock is past the last representable expiration")
        }
        other => panic!("unexpected {other:?}"),
    }
    let header = build_blossom_auth_at(&km, "abcd", u64::MAX - 300).unwrap();
    let bytes = base64::engine::general_purpose::STANDARD.decode(&header["Nostr ".len()..]).unwrap();
    let event: serde_json::Value = serde_json::from_slice(&bytes).unwrap();
    assert_eq!(event["tags"][2][1], u64::MAX.to_string());
}

#[test]
fn prepared_upload_hashes_the_bytes() {
    let km = KeyManager::generate();
    let before = std::time::SystemTime::now().duration_since(std::time::UNIX_EPOCH).unwrap().as_secs();
    let (hash, header) = prepare_upload(&km, b"abc").unwrap();
    let after = std::time::SystemTime::now().duration_since(std::time::UNIX_EPOCH).unwrap().as_secs();
    assert_eq!(hash, "ba7816bf8f01cfea414140de5dae2223b00361a396177a9cb410ff61f20015ad");
    assert!(header.starts_with("Nostr "));
    let bytes = base64::engine::general_purpose::STANDARD.decode(&header["Nostr ".len()..]).unwrap();
    let event: serde_json::Value = serde_json::from_slice(&bytes).unwrap();
    assert_eq!(event["tags"][1][1], hash.as_str());
    let expiration: u64 = event["tags"][2][1].as_str().unwrap().parse().unwrap();
    assert!(before + 300 <= expiration && expiration <= after + 300);
}

#[test]
fn operations_need_a_token() {
    assert!(matches!(require_token(None), Err(SproutError::AuthRequired)));
    assert_eq!(require_token(Some("t".to_string())).unwrap(), "t");
    assert_eq!(starting_token(Some("cfg".to_string()), CachedToken::Valid("c".to_string())), Some("cfg".to_string()));
    assert_eq!(starting_token(None, CachedToken::Valid("c".to_string())), Some("c".to_string()));
    assert_eq!(starting_token(None, CachedToken::Expired), None);
    assert_eq!(starting_token(None, CachedToken::Missing), None);
}

#[test]
fn ids_are_checked() {
    assert_eq!(parse_uuid("550e8400-e29b-41d4-a716-446655440000").unwrap().len(), 16);
    match parse_uuid("not-a-uuid") {
        Err(SproutError::ValidationError { message }) => assert!(message.starts_with("invalid UUID: ")),
        other => panic!("unexpected {other:?}"),
    }
    let hex = "ab".repeat(32);
    assert_eq!(parse_event_id(&hex).unwrap(), vec![0xab; 32]);
    match parse_event_id("zz") {
        Err(SproutError::ValidationError { message }) => assert!(message.starts_with("invalid event ID: ")),
        other => panic!("unexpected {other:?}"),
    }
}

#[test]
fn thread_references() {
    let root = "11".repeat(32);
    let parent = "22".repeat(32);
    assert!(thread_ref(None, Some(&parent)).unwrap().is_none());
    let t = thread_ref(Some(&root), None).unwrap().unwrap();
    assert_eq!(t.root_event_id, vec![0x11; 32]);
    assert_eq!(t.parent_event_id, vec![0x11; 32]);
    let t = thread_ref(Some(&root), Some(&parent)).unwrap().unwrap();
    assert_eq!(t.parent_event_id, vec![0x22; 32]);
    assert!(matches!(thread_ref(Some("bad"), Some(&parent)), Err(SproutError::ValidationError { .. })));
    assert!(matches!(thread_ref(Some(&root), Some("bad")), Err(SproutError::ValidationError { .. })));
}

#[test]
fn sent_message_prefers_relay_event_id() {
    let params = SendMessageParams {
        channel_id: "c".to_string(),
        content: "hi".to_string(),
        reply_to_event_id: Some("p".to_string()),
        thread_root_event_id: None,
        mentions: Vec::new(),
        media_attachments: Vec::new(),
    };
    let mut with_media = params.clone();
    with_media.media_attachments = vec!["https://x/a.jpg".to_string(), "https://x/b.png".to_string()];
    let m = sent_message(with_media, &parse("{}"), "local-id".to_string(), "pk".to_string(), 77);
    assert_eq!(m.media.len(), 2);
    assert_eq!(m.media[0].url, "https://x/a.jpg");
    assert_eq!(m.media[1].url, "https://x/b.png");
    assert_eq!(m.media[0].mime_type, "application/octet-stream");
    assert_eq!(m.media[0].size_bytes, None);
    let m = sent_message(params.clone(), &parse(r#"{"event_id": "relay-id"}"#), "local-id".to_string(), "pk".to_string(), 77);
    assert!(m.media.is_empty());
    assert_eq!(m.event_id, "relay-id");
    assert_eq!(m.kind, 9);
    assert_eq!(m.created_at, 77);
    assert_eq!(m.reply_to, Some("p".to_string()));
    let m = sent_message(params, &parse(r#"{"accepted": true}"#), "local-id".to_string(), "pk".to_string(), 77);
    assert_eq!(m.event_id, "local-id");
    assert_eq!(m.author_pubkey, "pk");
}
