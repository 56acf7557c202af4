use sprout_mobile::converters::{
    json_to_channel, json_to_dm, json_to_feed_item, json_to_member, json_to_message, json_to_profile,
    json_to_search_result,
};
use sprout_mobile::json::{JsonNumber, JsonValue};
use sprout_mobile::store::{channel_type_str, parse_channel_type, parse_visibility, visibility_str};
use sprout_mobile::types::{ChannelType, ChannelVisibility, FeedCategory, MemberRole};

fn to_json(v: &serde_json::Value) -> JsonValue {
    match v {
        serde_json::Value::Null => JsonValue::Null,
        serde_json::Value::Bool(b) => JsonValue::Bool(*b),
        serde_json::Value::Number(n) => {
            if let Some(u) = n.as_u64() {
                JsonValue::Number(JsonNumber::PosInt(u))
            } else if let Some(i) = n.as_i64() {
                JsonValue::Number(JsonNumber::NegInt(i))
            } else {
                JsonValue::Number(JsonNumber::Float)
            }
        }
        serde_json::Value::String(s) => JsonValue::Str(s.clone()),
        serde_json::Value::Array(a) => JsonValue::Array(a.iter().map(to_json).collect()),
        serde_json::Value::Object(o) => {
            JsonValue::Object(o.iter().map(|(k, v)| (k.clone(), to_json(v))).collect())
        }
    }
}

fn parse(text: &str) -> JsonValue {
    to_json(&serde_json::from_str::<serde_json::Value>(text).unwrap())
}

#[test]
fn convert_channel_json() {
    let json = parse(
        r#"{"id": "ch-1", "name": "general", "channel_type": "stream", "visibility": "open",
            "member_count": 10, "is_member": true}"#,
    );
    let ch = json_to_channel(&json).unwrap();
    assert_eq!(ch.id, "ch-1");
    assert_eq!(ch.name, "general");
    assert_eq!(ch.member_count, 10);
}

#[test]
fn channel_defaults_and_last_message_time() {
    let json = parse(
        r#"{"id": "c", "name": "n", "channel_type": "forum", "visibility": "private",
            "last_message_at": "1970-01-01T00:01:40Z", "description": "d"}"#,
    );
    let ch = json_to_channel(&json).unwrap();
    assert_eq!(ch.channel_type, ChannelType::Forum);
    assert_eq!(ch.visibility, ChannelVisibility::Private);
    assert_eq!(ch.last_message_at, Some(100));
    assert_eq!(ch.about, Some("d".to_string()));
    assert_eq!(ch.member_count, 0);
    assert!(!ch.is_member);

    let json = parse(r#"{"id": "c", "name": "n", "channel_type": "odd"}"#);
    let ch = json_to_channel(&json).unwrap();
    assert_eq!(ch.channel_type, ChannelType::Stream);
    assert_eq!(ch.visibility, ChannelVisibility::Open);
    assert_eq!(ch.last_message_at, None);

    assert!(json_to_channel(&parse(r#"{"id": "c"}"#)).is_none());
}

#[test]
fn convert_profile_json() {
    let json = parse(
        r#"{"pubkey": "aabb", "display_name": "Alice", "avatar_url": "https://example.com/alice.jpg"}"#,
    );
    let p = json_to_profile(&json).unwrap();
    assert_eq!(p.pubkey, "aabb");
    assert_eq!(p.display_name, Some("Alice".to_string()));
    assert_eq!(p.picture, Some("https://example.com/alice.jpg".to_string()));
    assert!(json_to_profile(&parse(r#"{"display_name": "x"}"#)).is_none());
}

#[test]
fn convert_member_json() {
    let m = json_to_member(&parse(r#"{"pubkey": "aa", "role": "admin", "display_name": "A"}"#)).unwrap();
    assert_eq!(m.pubkey, "aa");
    assert_eq!(m.role, MemberRole::Admin);
    assert_eq!(m.profile.unwrap().display_name, Some("A".to_string()));
}

#[test]
fn convert_event_json_to_message() {
    let json = parse(
        r#"{"id": "evt-1", "pubkey": "aabb", "kind": 9, "content": "hello", "created_at": 1000,
            "tags": [["h", "ch-1"], ["e", "root-1", "", "root"], ["e", "parent-1", "", "reply"]],
            "sig": "deadbeef"}"#,
    );
    let msg = json_to_message(&json).unwrap();
    assert_eq!(msg.event_id, "evt-1");
    assert_eq!(msg.channel_id, "ch-1");
    assert_eq!(msg.thread_root, Some("root-1".to_string()));
    assert_eq!(msg.reply_to, Some("parent-1".to_string()));
}

#[test]
fn convert_message_with_imeta() {
    let json = parse(
        r#"{"id": "evt-2", "pubkey": "aabb", "kind": 9, "content": "check this out", "created_at": 2000,
            "tags": [["h", "ch-1"],
                     ["imeta", "url https://example.com/img.jpg", "m image/jpeg", "size 1024", "dim 800x600"]],
            "sig": "deadbeef"}"#,
    );
    let msg = json_to_message(&json).unwrap();
    assert_eq!(msg.media.len(), 1);
    assert_eq!(msg.media[0].url, "https://example.com/img.jpg");
    assert_eq!(msg.media[0].mime_type, "image/jpeg");
    assert_eq!(msg.media[0].dimensions, Some("800x600".to_string()));
}

#[test]
fn message_without_required_member_is_skipped() {
    let json = parse(r#"{"id": "e", "pubkey": "p", "kind": 9, "created_at": 1, "tags": []}"#);
    assert!(json_to_message(&json).is_none());
    let json = parse(r#"{"id": "e", "pubkey": "p", "kind": 9, "content": "", "created_at": 1, "tags": []}"#);
    let msg = json_to_message(&json).unwrap();
    assert_eq!(msg.channel_id, "");
    assert_eq!(msg.reply_to, None);
    assert_eq!(msg.kind, 9);
}

#[test]
fn convert_search_hit_and_feed_item() {
    let hit = json_to_search_result(&parse(
        r#"{"event_id": "e", "channel_id": "c", "channel_name": "general", "content": "x", "pubkey": "p", "created_at": 7}"#,
    ))
    .unwrap();
    assert_eq!(hit.channel_name, "general");
    assert_eq!(hit.created_at, 7);

    let item = json_to_feed_item(&parse(r#"{"event_id": "e2", "content": "y"}"#), FeedCategory::Activity).unwrap();
    assert_eq!(item.event_id, "e2");
    assert_eq!(item.kind, 9);
    assert_eq!(item.category, FeedCategory::Activity);
    // An `id` member that is not a string hides `event_id`.
    assert!(json_to_feed_item(&parse(r#"{"id": 5, "event_id": "e2"}"#), FeedCategory::Mention).is_none());
}

#[test]
fn convert_dm_json() {
    let dm = json_to_dm(&parse(r#"{"id": "dm-1", "participants": ["a", 3, "b"]}"#)).unwrap();
    assert_eq!(dm.channel_id, "dm-1");
    let keys: Vec<String> = dm.participants.iter().map(|p| p.pubkey.clone()).collect();
    assert_eq!(keys, vec!["a".to_string(), "b".to_string()]);
    assert!(dm.last_message.is_none());
}

#[test]
fn channel_type_and_visibility_names_roundtrip() {
    for ct in [ChannelType::Stream, ChannelType::Forum, ChannelType::Dm] {
        assert_eq!(parse_channel_type(channel_type_str(&ct)), ct);
    }
    for v in [ChannelVisibility::Open, ChannelVisibility::Private] {
        assert_eq!(parse_visibility(visibility_str(&v)), v);
    }
    assert_eq!(parse_channel_type("unknown"), ChannelType::Stream);
    assert_eq!(parse_visibility("unknown"), ChannelVisibility::Open);
}
