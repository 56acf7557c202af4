// Request paths and JSON bodies of the relay's REST endpoints.

use vstd::prelude::*;

use crate::encoding::{percent_encode, url_encode};
use crate::event::string_array;
use crate::json::{json_get, json_str, lemma_lookup_at, JsonValue};
use crate::text::{decimal, format_i64, format_u64, push_str, signed_decimal};
use crate::types::PresenceStatus;
use vstd::string::StringSliceAdditionalSpecFns;

verus! {

/// Channels of the current user (GET).
pub const CHANNELS_PATH: &'static str = "/api/channels";

/// DM conversations (GET to list, POST to open).
pub const DMS_PATH: &'static str = "/api/dms";

/// The home feed (GET).
pub const FEED_PATH: &'static str = "/api/feed";

/// Profiles of several users (POST).
pub const USERS_BATCH_PATH: &'static str = "/api/users/batch";

/// The user's presence (PUT).
pub const PRESENCE_PATH: &'static str = "/api/presence";

/// API token minting (POST, NIP-98 auth).
pub const TOKENS_PATH: &'static str = "/api/tokens";

/// Event submission (POST).
pub const EVENTS_PATH: &'static str = "/api/events";

/// Blossom media upload (PUT).
pub const MEDIA_UPLOAD_PATH: &'static str = "/media/upload";

/// Messages fetched per page when the caller names no limit.
pub const DEFAULT_PAGE_SIZE: u32 = 50;

/// `a` followed by `b`.
fn concat(a: &str, b: &str) -> (r: String)
    ensures
        r@ == a@ + b@,
{
    let mut r = a.to_string();
    push_str(&mut r, b);
    r
}

/// One channel (GET).
pub fn channel_path(channel_id: &str) -> (r: String)
    ensures
        r@ == "/api/channels/"@ + channel_id@,
{
    concat("/api/channels/", channel_id)
}

/// The members of a channel (GET).
pub fn channel_members_path(channel_id: &str) -> (r: String)
    ensures
        r@ == "/api/channels/"@ + channel_id@ + "/members"@,
{
    let mut r = channel_path(channel_id);
    push_str(&mut r, "/members");
    r
}

/// The page size asked for: the caller's limit, or [`DEFAULT_PAGE_SIZE`].
pub fn page_size(limit: Option<u32>) -> (r: u32)
    ensures
        r == match limit {
            Some(n) => n,
            None => DEFAULT_PAGE_SIZE,
        },
{
    match limit {
        Some(n) => n,
        None => DEFAULT_PAGE_SIZE,
    }
}

/// The pagination cursor for messages before a Unix time: the time in
/// decimal.
pub fn message_cursor(before: Option<i64>) -> (r: Option<String>)
    ensures
        crate::json::opt_view(r) == match before {
            Some(t) => Some(signed_decimal(t as int)),
            None => None,
        },
{
    match before {
        Some(t) => Some(format_i64(t)),
        None => None,
    }
}

/// A page of a channel's messages (GET): at most `limit`, before `cursor`
/// when there is one.
pub fn messages_path(channel_id: &str, cursor: Option<&str>, limit: u32) -> (r: String)
    ensures
        r@ == "/api/channels/"@ + channel_id@ + "/messages?limit="@ + decimal(limit as nat) + match cursor {
            Some(c) => "&cursor="@ + c@,
            None => Seq::<char>::empty(),
        },
{
    let mut r = channel_path(channel_id);
    push_str(&mut r, "/messages?limit=");
    let n = format_u64(limit as u64);
    push_str(&mut r, n.as_str());
    match cursor {
        Some(c) => {
            push_str(&mut r, "&cursor=");
            push_str(&mut r, c);
        },
        None => {
            assert(r@ + Seq::<char>::empty() =~= r@);
        },
    }
    r
}

/// A thread of a channel, by its root event (GET).
pub fn thread_path(channel_id: &str, root_event_id: &str) -> (r: String)
    ensures
        r@ == "/api/channels/"@ + channel_id@ + "/threads/"@ + root_event_id@,
{
    let mut r = channel_path(channel_id);
    push_str(&mut r, "/threads/");
    push_str(&mut r, root_event_id);
    r
}

/// The reactions on a message (GET).
pub fn reactions_path(event_id: &str) -> (r: String)
    ensures
        r@ == "/api/messages/"@ + event_id@ + "/reactions"@,
{
    let mut r = concat("/api/messages/", event_id);
    push_str(&mut r, "/reactions");
    r
}

/// A user's profile (GET).
pub fn user_profile_path(pubkey: &str) -> (r: String)
    ensures
        r@ == "/api/users/"@ + pubkey@ + "/profile"@,
{
    let mut r = concat("/api/users/", pubkey);
    push_str(&mut r, "/profile");
    r
}

/// A full-text search for `query`, at most 50 hits (GET).
pub fn search_path(query: &str) -> (r: String)
    ensures
        r@ == "/api/search?q="@ + percent_encode(query.spec_bytes()) + "&limit=50"@,
{
    let q = url_encode(query);
    let mut r = concat("/api/search?q=", q.as_str());
    push_str(&mut r, "&limit=50");
    r
}

/// A search for users by name or key (GET).
pub fn user_search_path(query: &str) -> (r: String)
    ensures
        r@ == "/api/users/search?q="@ + percent_encode(query.spec_bytes()),
{
    let q = url_encode(query);
    concat("/api/users/search?q=", q.as_str())
}

/// The strings of a slice.
pub open spec fn texts(ss: Seq<String>) -> Seq<Seq<char>> {
    ss.map_values(|s: String| s@)
}

/// A JSON array of strings.
fn string_list(ss: &[String]) -> (r: JsonValue)
    ensures
        string_array(r) == Some(texts(ss@)),
{
    let mut items: Vec<JsonValue> = Vec::new();
    let mut i: usize = 0;
    while i < ss.len()
        invariant
            i <= ss@.len(),
            items@.len() == i,
            forall|k: int| 0 <= k < i ==> (#[trigger] items@[k]) == JsonValue::Str(ss@[k]),
        decreases ss@.len() - i,
    {
        items.push(JsonValue::Str(ss[i].clone()));
        i = i + 1;
    }
    proof {
        assert(crate::event::all_strings(items@));
        assert(items@.map_values(|x: JsonValue| json_str(x)->Some_0) =~= texts(ss@));
    }
    JsonValue::Array(items)
}

/// The body that names users by key (opening a DM, fetching profiles):
/// `{"pubkeys": [...]}`.
pub fn pubkeys_body(pubkeys: &[String]) -> (r: JsonValue)
    ensures
        json_get(r, "pubkeys"@) matches Some(v) && string_array(v) == Some(texts(pubkeys@)),
{
    let fields: Vec<(String, JsonValue)> = vec![("pubkeys".to_string(), string_list(pubkeys))];
    proof {
        lemma_lookup_at(fields@, 0, "pubkeys"@);
    }
    JsonValue::Object(fields)
}

/// The wire name of a presence status.
pub open spec fn presence_name(s: PresenceStatus) -> Seq<char> {
    match s {
        PresenceStatus::Online => "online"@,
        PresenceStatus::Away => "away"@,
        PresenceStatus::Offline => "offline"@,
    }
}

/// Each presence status goes on the wire under its own name: `online`
/// only for online, `away` only for away and `offline` only for offline.
pub proof fn law_presence_names(s: PresenceStatus)
    ensures
        presence_name(s) == "online"@ <==> s == PresenceStatus::Online,
        presence_name(s) == "away"@ <==> s == PresenceStatus::Away,
        presence_name(s) == "offline"@ <==> s == PresenceStatus::Offline,
{
    reveal_strlit("online");
    reveal_strlit("away");
    reveal_strlit("offline");
    assert("online"@ != "away"@ && "online"@ != "offline"@ && "away"@ != "offline"@) by {
        assert("online"@.len() == 6);
        assert("away"@.len() == 4);
        assert("offline"@.len() == 7);
    }
}

/// The wire name of a presence status.
pub fn presence_str(s: &PresenceStatus) -> (r: &'static str)
    ensures
        r@ == presence_name(*s),
{
    match s {
        PresenceStatus::Online => "online",
        PresenceStatus::Away => "away",
        PresenceStatus::Offline => "offline",
    }
}

/// The body that sets the user's presence: `{"status": <name>}`.
pub fn presence_body(s: &PresenceStatus) -> (r: JsonValue)
    ensures
        json_get(r, "status"@) matches Some(v) && json_str(v) == Some(presence_name(*s)),
{
    let fields: Vec<(String, JsonValue)> = vec![
        ("status".to_string(), JsonValue::Str(presence_str(s).to_string())),
    ];
    proof {
        lemma_lookup_at(fields@, 0, "status"@);
    }
    JsonValue::Object(fields)
}

} // verus!
