// Relay-to-client messages of NIP-01 and NIP-42, read from the JSON array
// that a relay sends as one WebSocket text frame.

use vstd::prelude::*;

use crate::event::{
    event_from_json, event_from_json_value, event_json_ok, event_written, tags_non_empty, tags_view,
    written_by_nostr, NostrEvent,
};
use crate::json::{json_bool, json_str, opt_view, or_default, JsonValue};
use crate::text::{push_str, str_eq};

verus! {

/// Why a relay frame could not be read.
#[derive(Debug, Clone)]
pub enum ProtocolError {
    /// The frame is not the JSON it should be; the text says what is wrong.
    Json(String),
    /// The frame is well-formed JSON but not a relay message that this client
    /// knows.
    UnexpectedMessage(String),
}

/// The text of a [`ProtocolError`].
pub open spec fn protocol_error_text(e: ProtocolError) -> Seq<char> {
    match e {
        ProtocolError::Json(m) => "JSON error: "@ + m@,
        ProtocolError::UnexpectedMessage(m) => "unexpected relay message: "@ + m@,
    }
}

impl ProtocolError {
    /// The human-readable text of this error.
    pub fn message_text(&self) -> (r: String)
        ensures
            r@ == protocol_error_text(*self),
    {
        match self {
            ProtocolError::Json(m) => {
                let mut r = "JSON error: ".to_string();
                push_str(&mut r, m.as_str());
                r
            },
            ProtocolError::UnexpectedMessage(m) => {
                let mut r = "unexpected relay message: ".to_string();
                push_str(&mut r, m.as_str());
                r
            },
        }
    }
}

/// The relay's answer to an event the client published (`["OK", ...]`).
#[derive(Debug, Clone)]
pub struct OkResponse {
    /// Id of the event answered.
    pub event_id: String,
    /// Whether the relay stored the event.
    pub accepted: bool,
    /// The relay's explanation (empty when it gave none).
    pub message: String,
}

/// A message from the relay.
#[derive(Debug, Clone)]
pub enum RelayMessage {
    /// `["EVENT", <subscription id>, <event>]`
    Event { subscription_id: String, event: NostrEvent },
    /// `["OK", <event id>, <accepted>, <message>]`
    OkReply(OkResponse),
    /// `["EOSE", <subscription id>]`: stored events have all been sent.
    Eose { subscription_id: String },
    /// `["CLOSED", <subscription id>, <message>]`: the relay ended a subscription.
    Closed { subscription_id: String, message: String },
    /// `["NOTICE", <message>]`
    Notice { message: String },
    /// `["AUTH", <challenge>]`: the relay asks the client to authenticate.
    Auth { challenge: String },
}

/// The string at index `i` of a frame, when there is one.
pub open spec fn item_str(items: Seq<JsonValue>, i: int) -> Option<Seq<char>> {
    if 0 <= i < items.len() {
        json_str(items[i])
    } else {
        None
    }
}

/// The boolean at index `i` of a frame, when there is one.
pub open spec fn item_bool(items: Seq<JsonValue>, i: int) -> Option<bool> {
    if 0 <= i < items.len() {
        json_bool(items[i])
    } else {
        None
    }
}

/// What a frame whose event member is malformed is answered with.
pub open spec fn invalid_event_text() -> Seq<char> {
    "event is not a valid NIP-01 event"@
}

/// `r` is the error for a frame that lacks a member its type needs; it
/// carries the frame's text.
pub open spec fn is_unexpected(r: Result<RelayMessage, ProtocolError>, text: Seq<char>) -> bool {
    r matches Err(ProtocolError::UnexpectedMessage(s)) && s@ == text
}

/// `r` is what the frame `items`, received as `text`, reads as. The first
/// member names the message type; a member that the type needs and that is
/// missing or not a string gives [`ProtocolError::UnexpectedMessage`] with
/// the frame's text; optional members default to `false` and the empty
/// string; an unknown type is reported by name.
pub open spec fn relay_message_read(items: Seq<JsonValue>, text: Seq<char>, r: Result<RelayMessage, ProtocolError>) -> bool {
    match item_str(items, 0) {
        None => is_unexpected(r, text),
        Some(t) => if t == "EVENT"@ {
            match item_str(items, 1) {
                None => is_unexpected(r, text),
                Some(sub) => if items.len() < 3 {
                    is_unexpected(r, text)
                } else if event_json_ok(items[2]) {
                    r matches Ok(RelayMessage::Event { subscription_id, event }) && subscription_id@ == sub
                        && event_from_json(event, items[2])
                } else {
                    r matches Err(ProtocolError::Json(m)) && m@ == invalid_event_text()
                },
            }
        } else if t == "OK"@ {
            match item_str(items, 1) {
                None => is_unexpected(r, text),
                Some(id) => r matches Ok(RelayMessage::OkReply(ok)) && ok.event_id@ == id && ok.accepted == (
                item_bool(items, 2) == Some(true)) && ok.message@ == or_default(item_str(items, 3), ""@),
            }
        } else if t == "EOSE"@ {
            match item_str(items, 1) {
                None => is_unexpected(r, text),
                Some(sub) => r matches Ok(RelayMessage::Eose { subscription_id }) && subscription_id@ == sub,
            }
        } else if t == "CLOSED"@ {
            match item_str(items, 1) {
                None => is_unexpected(r, text),
                Some(sub) => r matches Ok(RelayMessage::Closed { subscription_id, message })
                    && subscription_id@ == sub && message@ == or_default(item_str(items, 2), ""@),
            }
        } else if t == "NOTICE"@ {
            r matches Ok(RelayMessage::Notice { message }) && message@ == or_default(item_str(items, 1), ""@)
        } else if t == "AUTH"@ {
            match item_str(items, 1) {
                None => is_unexpected(r, text),
                Some(c) => r matches Ok(RelayMessage::Auth { challenge }) && challenge@ == c,
            }
        } else {
            r matches Err(ProtocolError::UnexpectedMessage(s)) && s@ == "unknown message type: "@ + t
        },
    }
}

/// The string at index `i`, copied.
fn string_item(items: &Vec<JsonValue>, i: usize) -> (r: Option<String>)
    ensures
        opt_view(r) == item_str(items@, i as int),
{
    if i < items.len() {
        match items[i].as_str() {
            Some(s) => Some(s.to_string()),
            None => None,
        }
    } else {
        None
    }
}

/// The string at index `i`, or the empty string.
fn string_item_or_empty(items: &Vec<JsonValue>, i: usize) -> (r: String)
    ensures
        r@ == or_default(item_str(items@, i as int), ""@),
{
    match string_item(items, i) {
        Some(s) => s,
        None => "".to_string(),
    }
}

/// The error for a frame that lacks a member its type needs.
fn unexpected(text: &str) -> (r: Result<RelayMessage, ProtocolError>)
    ensures
        is_unexpected(r, text@),
{
    Err(ProtocolError::UnexpectedMessage(text.to_string()))
}

/// Reads a relay frame: `items` is the JSON array the frame holds and `text`
/// the frame as received (it is quoted back in errors).
pub fn parse_relay_message(items: &Vec<JsonValue>, text: &str) -> (r: Result<RelayMessage, ProtocolError>)
    ensures
        relay_message_read(items@, text@, r),
{
    let kind = match string_item(items, 0) {
        Some(t) => t,
        None => return unexpected(text),
    };
    if str_eq(kind.as_str(), "EVENT") {
        let sub = match string_item(items, 1) {
            Some(s) => s,
            None => return unexpected(text),
        };
        if items.len() < 3 {
            return unexpected(text);
        }
        match event_from_json_value(&items[2]) {
            Some(event) => Ok(RelayMessage::Event { subscription_id: sub, event }),
            None => Err(ProtocolError::Json("event is not a valid NIP-01 event".to_string())),
        }
    } else if str_eq(kind.as_str(), "OK") {
        let event_id = match string_item(items, 1) {
            Some(s) => s,
            None => return unexpected(text),
        };
        let accepted = if items.len() > 2 {
            match items[2].as_bool() {
                Some(b) => b,
                None => false,
            }
        } else {
            false
        };
        let message = string_item_or_empty(items, 3);
        Ok(RelayMessage::OkReply(OkResponse { event_id, accepted, message }))
    } else if str_eq(kind.as_str(), "EOSE") {
        match string_item(items, 1) {
            Some(s) => Ok(RelayMessage::Eose { subscription_id: s }),
            None => unexpected(text),
        }
    } else if str_eq(kind.as_str(), "CLOSED") {
        let sub = match string_item(items, 1) {
            Some(s) => s,
            None => return unexpected(text),
        };
        let message = string_item_or_empty(items, 2);
        Ok(RelayMessage::Closed { subscription_id: sub, message })
    } else if str_eq(kind.as_str(), "NOTICE") {
        Ok(RelayMessage::Notice { message: string_item_or_empty(items, 1) })
    } else if str_eq(kind.as_str(), "AUTH") {
        match string_item(items, 1) {
            Some(c) => Ok(RelayMessage::Auth { challenge: c }),
            None => unexpected(text),
        }
    } else {
        let mut m = "unknown message type: ".to_string();
        push_str(&mut m, kind.as_str());
        Err(ProtocolError::UnexpectedMessage(m))
    }
}

/// The frame `["OK", id, accepted, message]` reads as the relay's answer
/// for event `id`: accepted exactly when the flag is `true`, with the
/// relay's message.
pub proof fn law_ok_frame(
    items: Seq<JsonValue>,
    text: Seq<char>,
    r: Result<RelayMessage, ProtocolError>,
    id: Seq<char>,
    accepted: bool,
    message: Seq<char>,
)
    requires
        items.len() == 4,
        json_str(items[0]) == Some("OK"@),
        json_str(items[1]) == Some(id),
        json_bool(items[2]) == Some(accepted),
        json_str(items[3]) == Some(message),
        relay_message_read(items, text, r),
    ensures
        r matches Ok(RelayMessage::OkReply(ok)) && ok.event_id@ == id && ok.accepted == accepted && ok.message@
            == message,
{
    reveal_strlit("OK");
    reveal_strlit("EVENT");
    assert(item_str(items, 0) == Some("OK"@));
    assert("OK"@ != "EVENT"@) by {
        assert("OK"@.len() != "EVENT"@.len());
    }
    assert(item_str(items, 1) == Some(id));
    assert(item_bool(items, 2) == Some(accepted));
    assert(item_str(items, 3) == Some(message));
}

/// The frame `["CLOSED", sub, message]` reads as the relay ending
/// subscription `sub` with that message, and `["AUTH", challenge]` as the
/// relay asking the client to answer `challenge`.
pub proof fn law_closed_and_auth_frames(
    closed: Seq<JsonValue>,
    auth: Seq<JsonValue>,
    text: Seq<char>,
    r1: Result<RelayMessage, ProtocolError>,
    r2: Result<RelayMessage, ProtocolError>,
    sub: Seq<char>,
    message: Seq<char>,
    challenge: Seq<char>,
)
    requires
        closed.len() == 3,
        json_str(closed[0]) == Some("CLOSED"@),
        json_str(closed[1]) == Some(sub),
        json_str(closed[2]) == Some(message),
        relay_message_read(closed, text, r1),
        auth.len() == 2,
        json_str(auth[0]) == Some("AUTH"@),
        json_str(auth[1]) == Some(challenge),
        relay_message_read(auth, text, r2),
    ensures
        r1 matches Ok(RelayMessage::Closed { subscription_id, message: m }) && subscription_id@ == sub && m@
            == message,
        r2 matches Ok(RelayMessage::Auth { challenge: c }) && c@ == challenge,
{
    reveal_strlit("OK");
    reveal_strlit("EVENT");
    reveal_strlit("EOSE");
    reveal_strlit("CLOSED");
    reveal_strlit("NOTICE");
    reveal_strlit("AUTH");
    assert(item_str(closed, 0) == Some("CLOSED"@));
    assert(item_str(closed, 1) == Some(sub));
    assert(item_str(closed, 2) == Some(message));
    assert("CLOSED"@ != "EVENT"@ && "CLOSED"@ != "OK"@ && "CLOSED"@ != "EOSE"@) by {
        assert("CLOSED"@.len() == 6);
    }
    assert(item_str(auth, 0) == Some("AUTH"@));
    assert(item_str(auth, 1) == Some(challenge));
    assert("AUTH"@ != "EVENT"@ && "AUTH"@ != "OK"@ && "AUTH"@ != "EOSE"@ && "AUTH"@ != "CLOSED"@ && "AUTH"@
        != "NOTICE"@) by {
        assert("AUTH"@[0] != "EOSE"@[0]);
        assert("AUTH"@.len() == 4);
    }
}

/// What a client publishes comes back intact: an event that nostr wrote,
/// with non-empty tags, sent by the relay in an EVENT frame as the NIP-01
/// object of the event reads back as that same event, under the frame's
/// subscription id.
pub proof fn law_event_frame_reads_back(
    e: NostrEvent,
    sub: Seq<char>,
    items: Seq<JsonValue>,
    text: Seq<char>,
    r: Result<RelayMessage, ProtocolError>,
)
    requires
        written_by_nostr(e),
        tags_non_empty(e.tags@),
        items.len() == 3,
        json_str(items[0]) == Some("EVENT"@),
        json_str(items[1]) == Some(sub),
        event_written(items[2], e),
        relay_message_read(items, text, r),
    ensures
        r matches Ok(RelayMessage::Event { subscription_id, event }) && {
            &&& subscription_id@ == sub
            &&& event.id@ == e.id@
            &&& event.pubkey@ == e.pubkey@
            &&& event.created_at == e.created_at
            &&& event.kind == e.kind
            &&& tags_view(event.tags@) == tags_view(e.tags@)
            &&& event.content@ == e.content@
            &&& event.sig@ == e.sig@
        },
{
    assert(item_str(items, 0) == Some("EVENT"@));
    assert(item_str(items, 1) == Some(sub));
    assert(event_json_ok(items[2]));
}

} // verus!
