use sprout_mobile::auth::keys::KeyManager;
use sprout_mobile::client::subscribe_channel;
use sprout_mobile::error::SproutError;
use sprout_mobile::event::{sign_event, signed_event_from};
use sprout_mobile::json::{JsonNumber, JsonValue};
use sprout_mobile::relay_protocol::{parse_relay_message, OkResponse, ProtocolError, RelayMessage};
use sprout_mobile::types::ConnectionState;
use sprout_mobile::ws::protocol::{format_auth, format_close, format_event, format_req};
use sprout_mobile::ws::registry::SubscriptionRegistry;
use sprout_mobile::ws::session::{after_failure, attempt_state, initial_backoff, step, Action, Incoming, Phase};
use sprout_mobile::ws::subscription::{
    channel_message_filter, filter_to_json, generate_sub_id, typing_indicator_filter,
};

fn to_json(v: &serde_json::Value) -> JsonValue {
    match v {
        serde_json::Value::Null => JsonValue::Null,
        serde_json::Value::Bool(b) => JsonValue::Bool(*b),
        serde_json::Value::Number(n) => {
            if let Some(u) = n.as_u64() {
                JsonValue::Number(JsonNumber::PosInt(u))
            } else if let Some(i) = n.as_i64() {
                JsonValue::Number(JsonNumber::NegInt(i))
            } else {
                JsonValue::Number(JsonNumber::Float)
            }
        }
        serde_json::Value::String(s) => JsonValue::Str(s.clone()),
        serde_json::Value::Array(a) => JsonValue::Array(a.iter().map(to_json).collect()),
        serde_json::Value::Object(o) => {
            JsonValue::Object(o.iter().map(|(k, v)| (k.clone(), to_json(v))).collect())
        }
    }
}

fn frame(text: &str) -> Result<RelayMessage, ProtocolError> {
    let items: Vec<serde_json::Value> = serde_json::from_str(text).unwrap();
    let items: Vec<JsonValue> = items.iter().map(to_json).collect();
    parse_relay_message(&items, text)
}

fn items_of(v: &JsonValue) -> &Vec<JsonValue> {
    v.as_array().unwrap()
}

#[test]
fn format_event_is_valid_json_array() {
    let km = KeyManager::generate();
    let signed = sign_event(&km, 1, "hello", Vec::new()).unwrap();
    let msg = format_event(&signed.event);
    let arr = items_of(&msg);
    assert_eq!(arr[0].as_str(), Some("EVENT"));
    assert!(arr[1].as_object().is_some());
    assert_eq!(arr[1].str_member("content"), Some("hello".to_string()));
}

#[test]
fn format_req_has_correct_structure() {
    let filter = typing_indicator_filter("ch-1");
    let msg = format_req("sub-1", &[filter]);
    let arr = items_of(&msg);
    assert_eq!(arr[0].as_str(), Some("REQ"));
    assert_eq!(arr[1].as_str(), Some("sub-1"));
    assert!(arr[2].as_object().is_some());
}

#[test]
fn format_close_is_valid() {
    let msg = format_close("sub-1");
    let arr = items_of(&msg);
    assert_eq!(arr[0].as_str(), Some("CLOSE"));
    assert_eq!(arr[1].as_str(), Some("sub-1"));
    assert_eq!(arr.len(), 2);
}

#[test]
fn auth_frame_carries_the_event() {
    let km = KeyManager::generate();
    let signed = sign_event(&km, 22242, "", vec![vec!["challenge".to_string(), "c".to_string()]]).unwrap();
    let msg = format_auth(&signed.event);
    let arr = items_of(&msg);
    assert_eq!(arr[0].as_str(), Some("AUTH"));
    assert_eq!(arr[1].str_member("id"), Some(signed.event.id.clone()));
    assert_eq!(arr[1].u64_member("kind"), Some(22242));
}

#[test]
fn channel_filter_json() {
    let f = filter_to_json(&channel_message_filter("ch-9"));
    let kinds: Vec<u64> = f.array_member("kinds").unwrap().iter().map(|k| k.as_u64().unwrap()).collect();
    assert_eq!(kinds, vec![5, 7, 9, 40003, 40099]);
    let h: Vec<&str> = f.array_member("#h").unwrap().iter().map(|v| v.as_str().unwrap()).collect();
    assert_eq!(h, vec!["ch-9"]);
    assert_eq!(typing_indicator_filter("x").kinds(), &vec![20002u16]);
}

#[test]
fn sub_id_has_prefix() {
    let id = generate_sub_id("msgs");
    assert!(id.starts_with("msgs-"));
    assert!(id.len() > 10);
}

#[test]
fn sub_ids_are_unique() {
    let id1 = generate_sub_id("test");
    let id2 = generate_sub_id("test");
    assert_ne!(id1, id2);
}

#[test]
fn sub_id_is_prefix_dash_and_32_hex_digits() {
    let id = generate_sub_id("ch");
    assert_eq!(id.len(), 35);
    assert!(id[3..].chars().all(|c| c.is_ascii_hexdigit() && !c.is_ascii_uppercase()));
}

#[test]
fn parses_each_relay_message() {
    assert!(matches!(frame(r#"["AUTH", "chal"]"#), Ok(RelayMessage::Auth { challenge }) if challenge == "chal"));
    assert!(matches!(frame(r#"["EOSE", "s1"]"#), Ok(RelayMessage::Eose { subscription_id }) if subscription_id == "s1"));
    assert!(matches!(frame(r#"["CLOSED", "s1", "bye"]"#),
        Ok(RelayMessage::Closed { subscription_id, message }) if subscription_id == "s1" && message == "bye"));
    assert!(matches!(frame(r#"["CLOSED", "s1"]"#), Ok(RelayMessage::Closed { message, .. }) if message.is_empty()));
    assert!(matches!(frame(r#"["NOTICE"]"#), Ok(RelayMessage::Notice { message }) if message.is_empty()));
    match frame(r#"["OK", "e1", true, "stored"]"#) {
        Ok(RelayMessage::OkReply(OkResponse { event_id, accepted, message })) => {
            assert_eq!(event_id, "e1");
            assert!(accepted);
            assert_eq!(message, "stored");
        }
        other => panic!("unexpected {other:?}"),
    }
    assert!(matches!(frame(r#"["OK", "e1", "yes"]"#), Ok(RelayMessage::OkReply(ok)) if !ok.accepted && ok.message.is_empty()));
}

#[test]
fn parses_event_messages() {
    let id = "a".repeat(64);
    let pk = "79be667ef9dcbbac55a06295ce870b07029bfcdb2dce28d959f2815b16f81798";
    let sig = "b".repeat(128);
    let text = format!(
        r#"["EVENT", "s1", {{"id": "{id}", "pubkey": "{pk}", "created_at": 5, "kind": 9, "tags": [["h", "c"]], "content": "x", "sig": "{sig}"}}]"#
    );
    match frame(&text) {
        Ok(RelayMessage::Event { subscription_id, event }) => {
            assert_eq!(subscription_id, "s1");
            assert_eq!(event.id, id);
            assert_eq!(event.pubkey, pk);
            assert_eq!(event.kind, 9);
            assert_eq!(event.tags, vec![vec!["h".to_string(), "c".to_string()]]);
        }
        other => panic!("unexpected {other:?}"),
    }
    let bad = r#"["EVENT", "s1", {"id": "zz"}]"#;
    assert!(matches!(frame(bad), Err(ProtocolError::Json(_))));
}

#[test]
fn malformed_frames_are_reported() {
    let text = r#"["EOSE"]"#;
    assert!(matches!(frame(text), Err(ProtocolError::UnexpectedMessage(t)) if t == text));
    let text = r#"[1, 2]"#;
    assert!(matches!(frame(text), Err(ProtocolError::UnexpectedMessage(t)) if t == text));
    let text = r#"["EVENT", "s1"]"#;
    assert!(matches!(frame(text), Err(ProtocolError::UnexpectedMessage(t)) if t == text));
    match frame(r#"["COUNT", "s", {}]"#) {
        Err(e) => assert_eq!(e.message_text(), "unexpected relay message: unknown message type: COUNT"),
        Ok(m) => panic!("unexpected {m:?}"),
    }
    assert_eq!(ProtocolError::Json("x".to_string()).message_text(), "JSON error: x");
}

#[test]
fn handshake_then_live() {
    let (phase, action) = step(Phase::AwaitingChallenge, Incoming::Text(frame(r#"["NOTICE", "hi"]"#)));
    assert_eq!(phase, Phase::AwaitingChallenge);
    assert!(matches!(action, Action::Ignore));
    let (phase, action) = step(phase, Incoming::Text(frame(r#"["AUTH", "c1"]"#)));
    assert_eq!(phase, Phase::AwaitingAuthOk);
    assert!(matches!(action, Action::Authenticate(c) if c == "c1"));
    let (phase, action) = step(phase, Incoming::Ping(vec![1, 2]));
    assert!(matches!(action, Action::Pong(d) if d == vec![1, 2]));
    let (phase, action) = step(phase, Incoming::Text(frame(r#"["OK", "auth-id", true, ""]"#)));
    assert_eq!(phase, Phase::Live);
    assert!(matches!(action, Action::Connected));
    let (_, action) = step(phase, Incoming::Text(frame(r#"["OK", "e9", false, "blocked"]"#)));
    match action {
        Action::Settle { event_id, result: Err(SproutError::RelayError { status, message }) } => {
            assert_eq!(event_id, "e9");
            assert_eq!(status, 400);
            assert_eq!(message, "blocked");
        }
        other => panic!("unexpected {other:?}"),
    }
    let (_, action) = step(Phase::Live, Incoming::Text(frame(r#"["CLOSED", "s7", "x"]"#)));
    assert!(matches!(action, Action::Forget(s) if s == "s7"));
}

#[test]
fn live_events_are_delivered_as_messages() {
    let km = KeyManager::generate();
    let signed = sign_event(&km, 9, "hello", vec![vec!["h".to_string(), "ch-1".to_string()]]).unwrap();
    let incoming = Incoming::Text(Ok(RelayMessage::Event { subscription_id: "s".to_string(), event: signed.event.clone() }));
    match step(Phase::Live, incoming) {
        (Phase::Live, Action::Deliver(m)) => {
            assert_eq!(m.event_id, signed.event.id);
            assert_eq!(m.channel_id, "ch-1");
            assert_eq!(m.content, "hello");
            assert_eq!(m.author_pubkey, km.pubkey_hex());
        }
        other => panic!("unexpected {other:?}"),
    }
}

#[test]
fn handshake_failures_end_the_attempt() {
    let (_, a) = step(Phase::AwaitingChallenge, Incoming::TimedOut);
    assert!(matches!(a, Action::Fail(SproutError::WebSocketError { message }) if message == "timeout waiting for AUTH challenge"));
    let (_, a) = step(Phase::AwaitingChallenge, Incoming::Ended);
    assert!(matches!(a, Action::Fail(SproutError::WebSocketError { message }) if message == "connection closed before auth"));
    let (_, a) = step(Phase::AwaitingAuthOk, Incoming::TimedOut);
    assert!(matches!(a, Action::Fail(SproutError::WebSocketError { message }) if message == "timeout waiting for auth OK"));
    let (_, a) = step(Phase::AwaitingAuthOk, Incoming::Text(frame(r#"["OK", "x", false, "no token"]"#)));
    assert!(matches!(a, Action::Fail(SproutError::AuthFailed { message }) if message == "no token"));
    let (_, a) = step(Phase::AwaitingAuthOk, Incoming::Close);
    assert!(matches!(a, Action::Ignore));
    let (_, a) = step(Phase::Live, Incoming::Close);
    assert!(matches!(a, Action::Fail(SproutError::WebSocketError { message }) if message == "relay closed connection"));
    let (_, a) = step(Phase::Live, Incoming::Failed("reset".to_string()));
    assert!(matches!(a, Action::Fail(SproutError::WebSocketError { message }) if message == "reset"));
    let (_, a) = step(Phase::Live, Incoming::Ended);
    assert!(matches!(a, Action::Fail(SproutError::WebSocketError { message }) if message == "connection stream ended"));
}

#[test]
fn reconnect_delay_doubles_up_to_thirty_seconds() {
    let mut b = initial_backoff();
    assert_eq!(attempt_state(&b), ConnectionState::Connecting);
    let mut waits = Vec::new();
    for _ in 0..7 {
        let (state, wait, next) = after_failure(&b);
        assert_eq!(state, ConnectionState::Reconnecting { attempt: b.attempt + 1 });
        waits.push(wait);
        b = next;
    }
    assert_eq!(waits, vec![1, 2, 4, 8, 16, 30, 30]);
    assert_eq!(attempt_state(&b), ConnectionState::Reconnecting { attempt: 7 });
}

#[test]
fn registry_replays_open_subscriptions() {
    let mut reg = SubscriptionRegistry::new();
    let id = subscribe_channel(&mut reg, "ch-1");
    assert!(id.starts_with("ch-"));
    assert!(reg.contains(&id));
    reg.subscribe("typing".to_string(), vec![typing_indicator_filter("ch-1")]);
    reg.subscribe("typing".to_string(), vec![typing_indicator_filter("ch-2")]);
    let frames = reg.replay_frames();
    assert_eq!(frames.len(), 2);
    let second = items_of(&frames[1]);
    assert_eq!(second[1].as_str(), Some("typing"));
    let h = second[2].array_member("#h").unwrap();
    assert_eq!(h[0].as_str(), Some("ch-2"));
    reg.unsubscribe(&id);
    assert!(!reg.contains(&id));
    assert_eq!(reg.replay_frames().len(), 1);
    reg.unsubscribe("never-opened");
    assert_eq!(reg.replay_frames().len(), 1);
}

#[test]
fn published_event_reads_back() {
    let km = KeyManager::generate();
    let signed = sign_event(&km, 9, "round trip", vec![vec!["h".to_string(), "c1".to_string()]]).unwrap();
    let items = vec![
        JsonValue::Str("EVENT".to_string()),
        JsonValue::Str("sub-9".to_string()),
        sprout_mobile::event::event_to_json(&signed.event),
    ];
    match parse_relay_message(&items, "frame") {
        Ok(RelayMessage::Event { subscription_id, event }) => {
            assert_eq!(subscription_id, "sub-9");
            assert_eq!(event.id, signed.event.id);
            assert_eq!(event.pubkey, signed.event.pubkey);
            assert_eq!(event.sig, signed.event.sig);
            assert_eq!(event.created_at, signed.event.created_at);
            assert_eq!(event.tags, signed.event.tags);
            assert_eq!(event.content, "round trip");
        }
        other => panic!("unexpected {other:?}"),
    }
}

#[test]
fn signing_refuses_an_empty_tag() {
    let km = KeyManager::generate();
    assert!(sign_event(&km, 1, "x", vec![vec![]]).is_err());
    assert!(sign_event(&km, 1, "x", vec![vec!["t".to_string()]]).is_ok());
}

#[test]
fn signed_event_keeps_what_nostr_gave() {
    let parts = Ok(("id".to_string(), "pk".to_string(), 7u64, "sig".to_string(), "{}".to_string()));
    let s = signed_event_from(parts, 9, "c", vec![vec!["h".to_string()]]).unwrap();
    assert_eq!(s.event.id, "id");
    assert_eq!(s.event.created_at, 7);
    assert_eq!(s.json, "{}");
    assert_eq!(s.event.kind, 9);
    assert!(matches!(signed_event_from(Err("no".to_string()), 9, "c", vec![]), Err(e) if e == "no"));
}
