// What the answers of the REST endpoints are turned into. Lists keep the
// elements that convert, in order, and skip the others.

use vstd::prelude::*;

use crate::converters::{
    channel_from_json, channel_json_ok, dm_from_json, feed_item_from_json, feed_item_id, json_to_channel,
    json_to_dm, json_to_feed_item, json_to_member, json_to_message, json_to_profile, json_to_search_result,
    last_message_time, member_from_json, message_from_json, message_json_ok, profile_from_json,
    search_result_from_json,
};
use crate::error::SproutError;
use crate::json::{json_array, json_get, json_object, opt_view, str_member, u64_member, JsonValue};
use crate::text::push_str;
use crate::types::{
    Channel, ChannelMember, DmConversation, FeedCategory, FeedItem, HomeFeed, Message, MessagePage,
    ReactionSummary, SearchResult, UserProfile,
};
use vstd::string::StrSliceExecFns;

verus! {

// ---------------------------------------------------------------------------
// Lists that keep what converts
// ---------------------------------------------------------------------------

/// `rs` holds, in order, what `made` relates to each element of `items`
/// that `read` accepts; the other elements are skipped.
pub open spec fn kept<I, X>(
    rs: Seq<X>,
    items: Seq<I>,
    read: spec_fn(I) -> bool,
    made: spec_fn(X, I) -> bool,
) -> bool
    decreases items.len(),
{
    if items.len() == 0 {
        rs.len() == 0
    } else if read(items.last()) {
        rs.len() > 0 && made(rs.last(), items.last()) && kept(rs.drop_last(), items.drop_last(), read, made)
    } else {
        kept(rs, items.drop_last(), read, made)
    }
}

/// Converting one more element extends what is kept.
pub proof fn lemma_kept_step<I, X>(
    rs: Seq<X>,
    items: Seq<I>,
    i: int,
    read: spec_fn(I) -> bool,
    made: spec_fn(X, I) -> bool,
    x: Option<X>,
)
    requires
        0 <= i < items.len(),
        kept(rs, items.take(i), read, made),
        x is Some <==> read(items[i]),
        x matches Some(y) ==> made(y, items[i]),
    ensures
        kept(
            match x {
                Some(y) => rs.push(y),
                None => rs,
            },
            items.take(i + 1),
            read,
            made,
        ),
{
    let t = items.take(i + 1);
    assert(t.drop_last() =~= items.take(i));
    assert(t.last() == items[i]);
    if let Some(y) = x {
        assert(rs.push(y).drop_last() =~= rs);
    }
}

/// Nothing is kept of no elements.
pub proof fn lemma_kept_empty<I, X>(items: Seq<I>, read: spec_fn(I) -> bool, made: spec_fn(X, I) -> bool)
    ensures
        kept(Seq::<X>::empty(), items.take(0), read, made),
{
    assert(items.take(0).len() == 0);
}

/// `r` is an internal error saying `msg`.
pub open spec fn fails_internally<T>(r: Result<T, SproutError>, msg: Seq<char>) -> bool {
    r matches Err(SproutError::InternalError { message }) && message@ == msg
}

/// The elements of an array value, or none.
pub open spec fn elements(v: JsonValue) -> Seq<JsonValue> {
    match json_array(v) {
        Some(items) => items,
        None => seq![],
    }
}

/// The elements of the array under `key`, or none.
pub open spec fn member_elements(v: JsonValue, key: Seq<char>) -> Seq<JsonValue> {
    match json_get(v, key) {
        Some(m) => elements(m),
        None => seq![],
    }
}

// Accepting and building each kind of record.

/// A channel object is read when it has an id and a name.
pub open spec fn channel_read() -> spec_fn(JsonValue) -> bool {
    |v: JsonValue| channel_json_ok(v)
}

/// The channel built from a channel object.
pub open spec fn channel_made() -> spec_fn(Channel, JsonValue) -> bool {
    |c: Channel, v: JsonValue| channel_from_json(c, v, last_message_time(v))
}

/// A member or profile object is read when it has a pubkey.
pub open spec fn pubkey_read() -> spec_fn(JsonValue) -> bool {
    |v: JsonValue| str_member(v, "pubkey"@) is Some
}

/// The member built from a member object.
pub open spec fn member_made() -> spec_fn(ChannelMember, JsonValue) -> bool {
    |m: ChannelMember, v: JsonValue| member_from_json(m, v)
}

/// The profile built from a profile object.
pub open spec fn profile_made() -> spec_fn(UserProfile, JsonValue) -> bool {
    |p: UserProfile, v: JsonValue| profile_from_json(p, v)
}

/// A conversation object is read when it has an id.
pub open spec fn dm_read() -> spec_fn(JsonValue) -> bool {
    |v: JsonValue| str_member(v, "id"@) is Some
}

/// The conversation built from a conversation object.
pub open spec fn dm_made() -> spec_fn(DmConversation, JsonValue) -> bool {
    |d: DmConversation, v: JsonValue| dm_from_json(d, v)
}

/// An event object is read as a message when it has the members one needs.
pub open spec fn message_read() -> spec_fn(JsonValue) -> bool {
    |v: JsonValue| message_json_ok(v)
}

/// The message built from an event object.
pub open spec fn message_made() -> spec_fn(Message, JsonValue) -> bool {
    |m: Message, v: JsonValue| message_from_json(m, v)
}

/// A search hit is read when it has an event id and a channel id.
pub open spec fn hit_read() -> spec_fn(JsonValue) -> bool {
    |v: JsonValue| str_member(v, "event_id"@) is Some && str_member(v, "channel_id"@) is Some
}

/// The result built from a search hit.
pub open spec fn hit_made() -> spec_fn(SearchResult, JsonValue) -> bool {
    |s: SearchResult, v: JsonValue| search_result_from_json(s, v)
}

/// A feed item is read when it has an identifier.
pub open spec fn feed_read() -> spec_fn(JsonValue) -> bool {
    |v: JsonValue| feed_item_id(v) is Some
}

/// The feed item of `category` built from a feed object.
pub open spec fn feed_made(category: FeedCategory) -> spec_fn(FeedItem, JsonValue) -> bool {
    |f: FeedItem, v: JsonValue| feed_item_from_json(f, v, category)
}

/// A reaction object is read when it has an emoji and a count.
pub open spec fn reaction_read() -> spec_fn(JsonValue) -> bool {
    |v: JsonValue| str_member(v, "emoji"@) is Some && u64_member(v, "count"@) is Some
}

/// The summary built from a reaction object: its emoji, its count cut to 32
/// bits, not reacted by the user.
pub open spec fn reaction_made() -> spec_fn(ReactionSummary, JsonValue) -> bool {
    |r: ReactionSummary, v: JsonValue|
        {
            &&& str_member(v, "emoji"@) == Some(r.emoji@)
            &&& r.count == (u64_member(v, "count"@)->Some_0) as u32
            &&& !r.reacted_by_me
            &&& r.my_reaction_event_id is None
        }
}

fn channels_of(items: &Vec<JsonValue>) -> (r: Vec<Channel>)
    ensures
        kept(r@, items@, channel_read(), channel_made()),
{
    let mut out: Vec<Channel> = Vec::new();
    let mut i: usize = 0;
    proof {
        lemma_kept_empty(items@, channel_read(), channel_made());
    }
    while i < items.len()
        invariant
            i <= items@.len(),
            kept(out@, items@.take(i as int), channel_read(), channel_made()),
        decreases items@.len() - i,
    {
        let x = json_to_channel(&items[i]);
        proof {
            lemma_kept_step(out@, items@, i as int, channel_read(), channel_made(), x);
        }
        if let Some(c) = x {
            out.push(c);
        }
        i = i + 1;
    }
    assert(items@.take(items@.len() as int) =~= items@);
    out
}

fn members_of(items: &Vec<JsonValue>) -> (r: Vec<ChannelMember>)
    ensures
        kept(r@, items@, pubkey_read(), member_made()),
{
    let mut out: Vec<ChannelMember> = Vec::new();
    let mut i: usize = 0;
    proof {
        lemma_kept_empty(items@, pubkey_read(), member_made());
    }
    while i < items.len()
        invariant
            i <= items@.len(),
            kept(out@, items@.take(i as int), pubkey_read(), member_made()),
        decreases items@.len() - i,
    {
        let x = json_to_member(&items[i]);
        proof {
            lemma_kept_step(out@, items@, i as int, pubkey_read(), member_made(), x);
        }
        if let Some(c) = x {
            out.push(c);
        }
        i = i + 1;
    }
    assert(items@.take(items@.len() as int) =~= items@);
    out
}

fn profiles_of(items: &Vec<JsonValue>) -> (r: Vec<UserProfile>)
    ensures
        kept(r@, items@, pubkey_read(), profile_made()),
{
    let mut out: Vec<UserProfile> = Vec::new();
    let mut i: usize = 0;
    proof {
        lemma_kept_empty(items@, pubkey_read(), profile_made());
    }
    while i < items.len()
        invariant
            i <= items@.len(),
            kept(out@, items@.take(i as int), pubkey_read(), profile_made()),
        decreases items@.len() - i,
    {
        let x = json_to_profile(&items[i]);
        proof {
            lemma_kept_step(out@, items@, i as int, pubkey_read(), profile_made(), x);
        }
        if let Some(c) = x {
            out.push(c);
        }
        i = i + 1;
    }
    assert(items@.take(items@.len() as int) =~= items@);
    out
}

fn dms_of(items: &Vec<JsonValue>) -> (r: Vec<DmConversation>)
    ensures
        kept(r@, items@, dm_read(), dm_made()),
{
    let mut out: Vec<DmConversation> = Vec::new();
    let mut i: usize = 0;
    proof {
        lemma_kept_empty(items@, dm_read(), dm_made());
    }
    while i < items.len()
        invariant
            i <= items@.len(),
            kept(out@, items@.take(i as int), dm_read(), dm_made()),
        decreases items@.len() - i,
    {
        let x = json_to_dm(&items[i]);
        proof {
            lemma_kept_step(out@, items@, i as int, dm_read(), dm_made(), x);
        }
        if let Some(c) = x {
            out.push(c);
        }
        i = i + 1;
    }
    assert(items@.take(items@.len() as int) =~= items@);
    out
}

fn messages_of(items: &Vec<JsonValue>) -> (r: Vec<Message>)
    ensures
        kept(r@, items@, message_read(), message_made()),
{
    let mut out: Vec<Message> = Vec::new();
    let mut i: usize = 0;
    proof {
        lemma_kept_empty(items@, message_read(), message_made());
    }
    while i < items.len()
        invariant
            i <= items@.len(),
            kept(out@, items@.take(i as int), message_read(), message_made()),
        decreases items@.len() - i,
    {
        let x = json_to_message(&items[i]);
        proof {
            lemma_kept_step(out@, items@, i as int, message_read(), message_made(), x);
        }
        if let Some(c) = x {
            out.push(c);
        }
        i = i + 1;
    }
    assert(items@.take(items@.len() as int) =~= items@);
    out
}

fn hits_of(items: &Vec<JsonValue>) -> (r: Vec<SearchResult>)
    ensures
        kept(r@, items@, hit_read(), hit_made()),
{
    let mut out: Vec<SearchResult> = Vec::new();
    let mut i: usize = 0;
    proof {
        lemma_kept_empty(items@, hit_read(), hit_made());
    }
    while i < items.len()
        invariant
            i <= items@.len(),
            kept(out@, items@.take(i as int), hit_read(), hit_made()),
        decreases items@.len() - i,
    {
        let x = json_to_search_result(&items[i]);
        proof {
            lemma_kept_step(out@, items@, i as int, hit_read(), hit_made(), x);
        }
        if let Some(c) = x {
            out.push(c);
        }
        i = i + 1;
    }
    assert(items@.take(items@.len() as int) =~= items@);
    out
}

/// The reaction summary of a reaction object.
fn reaction_of(v: &JsonValue) -> (r: Option<ReactionSummary>)
    ensures
        r is Some <==> reaction_read()(*v),
        r matches Some(x) ==> reaction_made()(x, *v),
{
    let emoji = match v.str_member("emoji") {
        Some(e) => e,
        None => return None,
    };
    let count = match v.u64_member("count") {
        Some(n) => n,
        None => return None,
    };
    Some(ReactionSummary { emoji, count: count as u32, reacted_by_me: false, my_reaction_event_id: None })
}

fn reactions_of(items: &Vec<JsonValue>) -> (r: Vec<ReactionSummary>)
    ensures
        kept(r@, items@, reaction_read(), reaction_made()),
{
    let mut out: Vec<ReactionSummary> = Vec::new();
    let mut i: usize = 0;
    proof {
        lemma_kept_empty(items@, reaction_read(), reaction_made());
    }
    while i < items.len()
        invariant
            i <= items@.len(),
            kept(out@, items@.take(i as int), reaction_read(), reaction_made()),
        decreases items@.len() - i,
    {
        let x = reaction_of(&items[i]);
        proof {
            lemma_kept_step(out@, items@, i as int, reaction_read(), reaction_made(), x);
        }
        if let Some(c) = x {
            out.push(c);
        }
        i = i + 1;
    }
    assert(items@.take(items@.len() as int) =~= items@);
    out
}

// ---------------------------------------------------------------------------
// Endpoint answers
// ---------------------------------------------------------------------------

/// The error for an answer that is not the array the endpoint sends.
fn not_an_array<T>(msg: &str) -> (r: Result<T, SproutError>)
    ensures
        fails_internally(r, msg@),
{
    Err(SproutError::InternalError { message: msg.to_string() })
}

/// The channels of `GET /api/channels`.
pub fn channel_list(json: &JsonValue) -> (r: Result<Vec<Channel>, SproutError>)
    ensures
        match json_array(*json) {
            Some(items) => r matches Ok(cs) && kept(cs@, items, channel_read(), channel_made()),
            None => fails_internally(r, "expected array from /api/channels"@),
        },
{
    match json.as_array() {
        Some(items) => Ok(channels_of(items)),
        None => not_an_array("expected array from /api/channels"),
    }
}

/// The channel of `GET /api/channels/{id}`.
pub fn channel_detail(json: &JsonValue) -> (r: Result<Channel, SproutError>)
    ensures
        if channel_json_ok(*json) {
            r matches Ok(c) && channel_from_json(c, *json, last_message_time(*json))
        } else {
            fails_internally(r, "failed to parse channel response"@)
        },
{
    match json_to_channel(json) {
        Some(c) => Ok(c),
        None => not_an_array("failed to parse channel response"),
    }
}

/// The members of `GET /api/channels/{id}/members`.
pub fn member_list(json: &JsonValue) -> (r: Result<Vec<ChannelMember>, SproutError>)
    ensures
        match json_array(*json) {
            Some(items) => r matches Ok(ms) && kept(ms@, items, pubkey_read(), member_made()),
            None => fails_internally(r, "expected array from members endpoint"@),
        },
{
    match json.as_array() {
        Some(items) => Ok(members_of(items)),
        None => not_an_array("expected array from members endpoint"),
    }
}

/// The conversations of `GET /api/dms`.
pub fn dm_list(json: &JsonValue) -> (r: Result<Vec<DmConversation>, SproutError>)
    ensures
        match json_array(*json) {
            Some(items) => r matches Ok(ds) && kept(ds@, items, dm_read(), dm_made()),
            None => fails_internally(r, "expected array from /api/dms"@),
        },
{
    match json.as_array() {
        Some(items) => Ok(dms_of(items)),
        None => not_an_array("expected array from /api/dms"),
    }
}

/// The conversation that `POST /api/dms` opened.
pub fn dm_detail(json: &JsonValue) -> (r: Result<DmConversation, SproutError>)
    ensures
        if str_member(*json, "id"@) is Some {
            r matches Ok(d) && dm_from_json(d, *json)
        } else {
            fails_internally(r, "failed to parse DM response"@)
        },
{
    match json_to_dm(json) {
        Some(d) => Ok(d),
        None => not_an_array("failed to parse DM response"),
    }
}

/// A page of `GET /api/channels/{id}/messages?limit=...`: the messages of the
/// answer (none when it is not an array); a full page means there may be
/// more.
pub fn message_page(json: &JsonValue, limit: u32) -> (r: MessagePage)
    ensures
        kept(r.messages@, elements(*json), message_read(), message_made()),
        r.has_more == (r.messages@.len() == limit as nat),
{
    let messages = match json.as_array() {
        Some(items) => messages_of(items),
        None => {
            proof {
                lemma_kept_empty(Seq::<JsonValue>::empty(), message_read(), message_made());
                assert(Seq::<JsonValue>::empty().take(0) =~= Seq::<JsonValue>::empty());
            }
            Vec::new()
        },
    };
    let has_more = messages.len() == limit as usize;
    MessagePage { messages, has_more }
}

/// The replies of `GET /api/channels/{id}/threads/{root}`: the messages under
/// `replies` (none when absent).
pub fn thread_replies(json: &JsonValue) -> (r: Vec<Message>)
    ensures
        kept(r@, member_elements(*json, "replies"@), message_read(), message_made()),
{
    match json.array_member("replies") {
        Some(items) => messages_of(items),
        None => {
            proof {
                lemma_kept_empty(Seq::<JsonValue>::empty(), message_read(), message_made());
                assert(Seq::<JsonValue>::empty().take(0) =~= Seq::<JsonValue>::empty());
            }
            Vec::new()
        },
    }
}

/// The reactions of `GET /api/messages/{id}/reactions` (none when the answer
/// is not an array).
pub fn reaction_list(json: &JsonValue) -> (r: Vec<ReactionSummary>)
    ensures
        kept(r@, elements(*json), reaction_read(), reaction_made()),
{
    match json.as_array() {
        Some(items) => reactions_of(items),
        None => {
            proof {
                lemma_kept_empty(Seq::<JsonValue>::empty(), reaction_read(), reaction_made());
                assert(Seq::<JsonValue>::empty().take(0) =~= Seq::<JsonValue>::empty());
            }
            Vec::new()
        },
    }
}

/// The profile of `GET /api/users/{pubkey}/profile`; an answer without a
/// pubkey means the user was not found.
pub fn profile_detail(json: &JsonValue, pubkey: &str) -> (r: Result<UserProfile, SproutError>)
    ensures
        if str_member(*json, "pubkey"@) is Some {
            r matches Ok(p) && profile_from_json(p, *json)
        } else {
            r matches Err(SproutError::NotFound { entity }) && entity@ == "profile for "@ + pubkey@
        },
{
    match json_to_profile(json) {
        Some(p) => Ok(p),
        None => {
            let mut entity = "profile for ".to_string();
            push_str(&mut entity, pubkey);
            Err(SproutError::NotFound { entity })
        },
    }
}

/// The profiles of `GET /api/users/search` (none when the answer is not an
/// array).
pub fn user_list(json: &JsonValue) -> (r: Vec<UserProfile>)
    ensures
        kept(r@, elements(*json), pubkey_read(), profile_made()),
{
    match json.as_array() {
        Some(items) => profiles_of(items),
        None => {
            proof {
                lemma_kept_empty(Seq::<JsonValue>::empty(), pubkey_read(), profile_made());
                assert(Seq::<JsonValue>::empty().take(0) =~= Seq::<JsonValue>::empty());
            }
            Vec::new()
        },
    }
}

/// The results of `GET /api/search`: the hits under `hits` (none when
/// absent).
pub fn search_hits(json: &JsonValue) -> (r: Vec<SearchResult>)
    ensures
        kept(r@, member_elements(*json, "hits"@), hit_read(), hit_made()),
{
    match json.array_member("hits") {
        Some(items) => hits_of(items),
        None => {
            proof {
                lemma_kept_empty(Seq::<JsonValue>::empty(), hit_read(), hit_made());
                assert(Seq::<JsonValue>::empty().take(0) =~= Seq::<JsonValue>::empty());
            }
            Vec::new()
        },
    }
}

/// A batch entry `(pubkey, object)` is read when its value is an object
/// whose `pubkey` member, if it has one, is a string; the object need not
/// repeat the pubkey.
pub open spec fn batch_read() -> spec_fn((String, JsonValue)) -> bool {
    |e: (String, JsonValue)|
        {
            &&& json_object(e.1) is Some
            &&& (json_get(e.1, "pubkey"@) is Some ==> str_member(e.1, "pubkey"@) is Some)
        }
}

/// The pubkey of a batch entry: the object's non-empty `pubkey` string, or
/// else the entry's key.
pub open spec fn batch_pubkey(key: Seq<char>, v: JsonValue) -> Seq<char> {
    match str_member(v, "pubkey"@) {
        Some(given) => if given.len() > 0 {
            given
        } else {
            key
        },
        None => key,
    }
}

/// A batch entry keeps the pubkey the object gives when it is a non-empty
/// string and falls back to the entry's key otherwise; an entry whose value
/// is not an object, or whose `pubkey` is present but not a string, gives
/// no profile.
pub proof fn law_batch_entry(key: String, v: JsonValue, p: UserProfile)
    requires
        batch_made()(p, (key, v)),
    ensures
        (str_member(v, "pubkey"@) matches Some(given) && given.len() > 0) ==> Some(p.pubkey@) == str_member(
            v,
            "pubkey"@,
        ),
        (str_member(v, "pubkey"@) is None || str_member(v, "pubkey"@) == Some(Seq::<char>::empty()))
            ==> p.pubkey@ == key@,
        opt_view(p.display_name) == str_member(v, "display_name"@),
        opt_view(p.picture) == str_member(v, "avatar_url"@),
        batch_read()((key, v)) ==> json_object(v) is Some,
        (json_get(v, "pubkey"@) is Some && str_member(v, "pubkey"@) is None) ==> !batch_read()((key, v)),
{
}

/// A batch entry that repeats a non-empty pubkey gives the very profile
/// that reading its object as a single profile gives.
pub proof fn law_batch_profile_is_profile(key: String, v: JsonValue, p: UserProfile)
    requires
        batch_made()(p, (key, v)),
        str_member(v, "pubkey"@) matches Some(given) && given.len() > 0,
    ensures
        profile_from_json(p, v),
{
}

/// The profile built from a batch entry: the pubkey of [`batch_pubkey`] and
/// the profile fields of the object.
pub open spec fn batch_made() -> spec_fn(UserProfile, (String, JsonValue)) -> bool {
    |p: UserProfile, e: (String, JsonValue)|
        {
            &&& p.pubkey@ == batch_pubkey(e.0@, e.1)
            &&& opt_view(p.display_name) == str_member(e.1, "display_name"@)
            &&& opt_view(p.picture) == str_member(e.1, "avatar_url"@)
            &&& opt_view(p.about) == str_member(e.1, "about"@)
            &&& opt_view(p.nip05) == str_member(e.1, "nip05_handle"@)
        }
}

/// The members of the object under `profiles`, or none.
pub open spec fn batch_entries(json: JsonValue) -> Seq<(String, JsonValue)> {
    match json_get(json, "profiles"@) {
        Some(m) => match json_object(m) {
            Some(fields) => fields,
            None => seq![],
        },
        None => seq![],
    }
}

/// The profile of one batch entry.
fn batch_profile(key: &String, v: &JsonValue) -> (r: Option<UserProfile>)
    ensures
        r is Some <==> batch_read()((*key, *v)),
        r matches Some(p) ==> batch_made()(p, (*key, *v)),
{
    if v.as_object().is_none() {
        return None;
    }
    let pubkey = match v.str_member("pubkey") {
        Some(given) => if given.as_str().unicode_len() > 0 {
            given
        } else {
            key.clone()
        },
        None => {
            if v.get("pubkey").is_some() {
                return None;
            }
            key.clone()
        },
    };
    Some(
        UserProfile {
            pubkey,
            display_name: v.str_member("display_name"),
            picture: v.str_member("avatar_url"),
            about: v.str_member("about"),
            nip05: v.str_member("nip05_handle"),
        },
    )
}

/// The profiles of `POST /api/users/batch`: one per member of the object
/// under `profiles` whose value is an object, in member order, keyed by the
/// member's name when the object gives no pubkey.
pub fn profiles_batch(json: &JsonValue) -> (r: Vec<UserProfile>)
    ensures
        kept(r@, batch_entries(*json), batch_read(), batch_made()),
{
    let fields = match json.get("profiles") {
        Some(m) => match m.as_object() {
            Some(f) => f,
            None => {
                proof {
                    lemma_kept_empty(Seq::<(String, JsonValue)>::empty(), batch_read(), batch_made());
                    assert(Seq::<(String, JsonValue)>::empty().take(0) =~= Seq::<(String, JsonValue)>::empty());
                }
                return Vec::new();
            },
        },
        None => {
            proof {
                lemma_kept_empty(Seq::<(String, JsonValue)>::empty(), batch_read(), batch_made());
                assert(Seq::<(String, JsonValue)>::empty().take(0) =~= Seq::<(String, JsonValue)>::empty());
            }
            return Vec::new();
        },
    };
    let mut out: Vec<UserProfile> = Vec::new();
    let mut i: usize = 0;
    proof {
        lemma_kept_empty(fields@, batch_read(), batch_made());
    }
    while i < fields.len()
        invariant
            i <= fields@.len(),
            kept(out@, fields@.take(i as int), batch_read(), batch_made()),
        decreases fields@.len() - i,
    {
        let x = batch_profile(&fields[i].0, &fields[i].1);
        proof {
            lemma_kept_step(out@, fields@, i as int, batch_read(), batch_made(), x);
        }
        if let Some(p) = x {
            out.push(p);
        }
        i = i + 1;
    }
    assert(fields@.take(fields@.len() as int) =~= fields@);
    out
}

// ---------------------------------------------------------------------------
// The home feed
// ---------------------------------------------------------------------------

/// The elements of the array under `feed.<key>`, or none.
pub open spec fn feed_section(json: JsonValue, key: Seq<char>) -> Seq<JsonValue> {
    match json_get(json, "feed"@) {
        Some(f) => member_elements(f, key),
        None => seq![],
    }
}

/// Appends the feed items of `category` that `items` hold.
fn push_feed_items(out: &mut Vec<FeedItem>, items: &Vec<JsonValue>, category: FeedCategory)
    ensures
        final(out)@.len() >= old(out)@.len(),
        final(out)@.subrange(0, old(out)@.len() as int) == old(out)@,
        kept(
            final(out)@.subrange(old(out)@.len() as int, final(out)@.len() as int),
            items@,
            feed_read(),
            feed_made(category),
        ),
{
    let ghost start = out@;
    let mut i: usize = 0;
    proof {
        lemma_kept_empty(items@, feed_read(), feed_made(category));
        assert(out@.subrange(start.len() as int, out@.len() as int) =~= Seq::<FeedItem>::empty());
    }
    while i < items.len()
        invariant
            i <= items@.len(),
            out@.len() >= start.len(),
            out@.subrange(0, start.len() as int) == start,
            kept(
                out@.subrange(start.len() as int, out@.len() as int),
                items@.take(i as int),
                feed_read(),
                feed_made(category),
            ),
        decreases items@.len() - i,
    {
        let x = json_to_feed_item(&items[i], category);
        let ghost added = out@.subrange(start.len() as int, out@.len() as int);
        proof {
            lemma_kept_step(added, items@, i as int, feed_read(), feed_made(category), x);
        }
        if let Some(f) = x {
            out.push(f);
            assert(out@.subrange(start.len() as int, out@.len() as int) =~= added.push(f));
        }
        assert(out@.subrange(0, start.len() as int) =~= start);
        i = i + 1;
    }
    assert(items@.take(items@.len() as int) =~= items@);
}

/// Appends the feed items of `category` under `feed.<key>`.
fn push_feed_section(out: &mut Vec<FeedItem>, json: &JsonValue, key: &str, category: FeedCategory)
    ensures
        final(out)@.len() >= old(out)@.len(),
        final(out)@.subrange(0, old(out)@.len() as int) == old(out)@,
        kept(
            final(out)@.subrange(old(out)@.len() as int, final(out)@.len() as int),
            feed_section(*json, key@),
            feed_read(),
            feed_made(category),
        ),
{
    let section = match json.get("feed") {
        Some(f) => f.array_member(key),
        None => None,
    };
    match section {
        Some(items) => push_feed_items(out, items, category),
        None => {
            proof {
                lemma_kept_empty(Seq::<JsonValue>::empty(), feed_read(), feed_made(category));
                assert(Seq::<JsonValue>::empty().take(0) =~= Seq::<JsonValue>::empty());
                assert(out@.subrange(0, out@.len() as int) =~= out@);
                assert(out@.subrange(out@.len() as int, out@.len() as int) =~= Seq::<FeedItem>::empty());
            }
        },
    }
}

/// `items` are the mentions, then the items needing action, then the
/// activity, then the agent activity of the feed in `json`.
pub open spec fn feed_items_read(items: Seq<FeedItem>, json: JsonValue) -> bool {
    exists|a: Seq<FeedItem>, b: Seq<FeedItem>, c: Seq<FeedItem>, d: Seq<FeedItem>|
        #![trigger kept(a, feed_section(json, "mentions"@), feed_read(), feed_made(FeedCategory::Mention)), kept(b, feed_section(json, "needs_action"@), feed_read(), feed_made(FeedCategory::NeedsAction)), kept(c, feed_section(json, "activity"@), feed_read(), feed_made(FeedCategory::Activity)), kept(d, feed_section(json, "agent_activity"@), feed_read(), feed_made(FeedCategory::AgentActivity))]
        items == a + b + c + d && kept(a, feed_section(json, "mentions"@), feed_read(), feed_made(FeedCategory::Mention))
            && kept(b, feed_section(json, "needs_action"@), feed_read(), feed_made(FeedCategory::NeedsAction))
            && kept(c, feed_section(json, "activity"@), feed_read(), feed_made(FeedCategory::Activity))
            && kept(
            d,
            feed_section(json, "agent_activity"@),
            feed_read(),
            feed_made(FeedCategory::AgentActivity),
        )
}

/// `x` was made from one of `items`.
pub open spec fn made_from<I, X>(x: X, items: Seq<I>, made: spec_fn(X, I) -> bool) -> bool {
    exists|i: int| 0 <= i < items.len() && #[trigger] made(x, items[i])
}

/// Each kept result was made from one of the elements, and no more results
/// are kept than there are elements.
pub proof fn lemma_kept_made<I, X>(rs: Seq<X>, items: Seq<I>, read: spec_fn(I) -> bool, made: spec_fn(X, I) -> bool)
    requires
        kept(rs, items, read, made),
    ensures
        rs.len() <= items.len(),
        forall|k: int| 0 <= k < rs.len() ==> made_from(#[trigger] rs[k], items, made),
    decreases items.len(),
{
    if items.len() > 0 {
        let its = items.drop_last();
        if read(items.last()) {
            let rd = rs.drop_last();
            lemma_kept_made(rd, its, read, made);
            assert forall|k: int| 0 <= k < rs.len() implies made_from(#[trigger] rs[k], items, made) by {
                if k == rs.len() - 1 {
                    assert(made(rs[k], items[items.len() - 1]));
                } else {
                    assert(rd[k] == rs[k]);
                    assert(made_from(rd[k], its, made));
                    let i = choose|i: int| 0 <= i < its.len() && #[trigger] made(rd[k], its[i]);
                    assert(its[i] == items[i]);
                    assert(made(rs[k], items[i]));
                }
            }
        } else {
            lemma_kept_made(rs, its, read, made);
            assert forall|k: int| 0 <= k < rs.len() implies made_from(#[trigger] rs[k], items, made) by {
                assert(made_from(rs[k], its, made));
                let i = choose|i: int| 0 <= i < its.len() && #[trigger] made(rs[k], its[i]);
                assert(its[i] == items[i]);
                assert(made(rs[k], items[i]));
            }
        }
    }
}

/// Where a category stands in the home feed.
pub open spec fn feed_rank(c: FeedCategory) -> int {
    match c {
        FeedCategory::Mention => 0,
        FeedCategory::NeedsAction => 1,
        FeedCategory::Activity => 2,
        FeedCategory::AgentActivity => 3,
    }
}

/// The member of `feed` that holds the items of a category.
pub open spec fn feed_key(c: FeedCategory) -> Seq<char> {
    match c {
        FeedCategory::Mention => "mentions"@,
        FeedCategory::NeedsAction => "needs_action"@,
        FeedCategory::Activity => "activity"@,
        FeedCategory::AgentActivity => "agent_activity"@,
    }
}

/// Some element of `section` has the id `id`.
pub open spec fn section_has_id(section: Seq<JsonValue>, id: Seq<char>) -> bool {
    exists|e: JsonValue| section.contains(e) && #[trigger] feed_item_id(e) == Some(id)
}

/// The items of section `key`, all of `category`, each made from an element
/// of the section.
proof fn lemma_section_items(a: Seq<FeedItem>, json: JsonValue, key: Seq<char>, category: FeedCategory)
    requires
        kept(a, feed_section(json, key), feed_read(), feed_made(category)),
    ensures
        forall|k: int| 0 <= k < a.len() ==> (#[trigger] a[k]).category == category,
        forall|k: int| 0 <= k < a.len() ==> section_has_id(feed_section(json, key), (#[trigger] a[k]).event_id@),
{
    let sec = feed_section(json, key);
    lemma_kept_made(a, sec, feed_read(), feed_made(category));
    assert forall|k: int| 0 <= k < a.len() implies (#[trigger] a[k]).category == category by {
        assert(made_from(a[k], sec, feed_made(category)));
        let i = choose|i: int| 0 <= i < sec.len() && #[trigger] feed_made(category)(a[k], sec[i]);
    }
    assert forall|k: int| 0 <= k < a.len() implies section_has_id(sec, (#[trigger] a[k]).event_id@) by {
        assert(made_from(a[k], sec, feed_made(category)));
        let i = choose|i: int| 0 <= i < sec.len() && #[trigger] feed_made(category)(a[k], sec[i]);
        assert(sec.contains(sec[i]));
        assert(feed_item_id(sec[i]) == Some(a[k].event_id@));
    }
}

/// The home feed lists the mentions first, then the items needing action,
/// then the activity, then the agent activity; and every item of a category
/// is read from the section of the feed for that category, with that
/// section's id.
pub proof fn law_home_feed_sections(items: Seq<FeedItem>, json: JsonValue)
    requires
        feed_items_read(items, json),
    ensures
        forall|i: int, j: int|
            0 <= i < j < items.len() ==> feed_rank((#[trigger] items[i]).category) <= feed_rank(
                (#[trigger] items[j]).category,
            ),
        forall|k: int|
            0 <= k < items.len() ==> section_has_id(
                feed_section(json, feed_key((#[trigger] items[k]).category)),
                items[k].event_id@,
            ),
{
    let (a, b, c, d) = choose|a: Seq<FeedItem>, b: Seq<FeedItem>, c: Seq<FeedItem>, d: Seq<FeedItem>|
        items == a + b + c + d && kept(a, feed_section(json, "mentions"@), feed_read(), feed_made(FeedCategory::Mention))
            && kept(b, feed_section(json, "needs_action"@), feed_read(), feed_made(FeedCategory::NeedsAction))
            && kept(c, feed_section(json, "activity"@), feed_read(), feed_made(FeedCategory::Activity))
            && kept(d, feed_section(json, "agent_activity"@), feed_read(), feed_made(FeedCategory::AgentActivity));
    lemma_section_items(a, json, "mentions"@, FeedCategory::Mention);
    lemma_section_items(b, json, "needs_action"@, FeedCategory::NeedsAction);
    lemma_section_items(c, json, "activity"@, FeedCategory::Activity);
    lemma_section_items(d, json, "agent_activity"@, FeedCategory::AgentActivity);
    let la = a.len() as int;
    let lb = la + b.len();
    let lc = lb + c.len();
    assert forall|k: int| 0 <= k < items.len() implies {
        &&& (k < la ==> items[k] == a[k])
        &&& (la <= k < lb ==> items[k] == b[k - la])
        &&& (lb <= k < lc ==> items[k] == c[k - lb])
        &&& (lc <= k ==> items[k] == d[k - lc])
    } by {}
    assert forall|k: int| 0 <= k < items.len() implies feed_rank(#[trigger] items[k].category) == (if k < la {
        0int
    } else if k < lb {
        1int
    } else if k < lc {
        2int
    } else {
        3int
    }) by {
        if k < la {
            assert(a[k].category == FeedCategory::Mention);
        } else if k < lb {
            assert(b[k - la].category == FeedCategory::NeedsAction);
        } else if k < lc {
            assert(c[k - lb].category == FeedCategory::Activity);
        } else {
            assert(d[k - lc].category == FeedCategory::AgentActivity);
        }
    }
    assert forall|k: int| 0 <= k < items.len() implies section_has_id(
        feed_section(json, feed_key((#[trigger] items[k]).category)),
        items[k].event_id@,
    ) by {
        if k < la {
            assert(a[k] == items[k]);
            assert(a[k].category == FeedCategory::Mention);
        } else if k < lb {
            assert(b[k - la] == items[k]);
            assert(b[k - la].category == FeedCategory::NeedsAction);
        } else if k < lc {
            assert(c[k - lb] == items[k]);
            assert(c[k - lb].category == FeedCategory::Activity);
        } else {
            assert(d[k - lc] == items[k]);
            assert(d[k - lc].category == FeedCategory::AgentActivity);
        }
    }
}

/// The home feed of `GET /api/feed`: the items under `feed.mentions`,
/// `feed.needs_action`, `feed.activity` and `feed.agent_activity`, in that
/// order and each in its category; `total` counts them.
pub fn home_feed(json: &JsonValue) -> (r: HomeFeed)
    ensures
        feed_items_read(r.items@, *json),
        r.total == r.items@.len() as u32,
{
    let mut items: Vec<FeedItem> = Vec::new();
    push_feed_section(&mut items, json, "mentions", FeedCategory::Mention);
    let ghost a = items@;
    push_feed_section(&mut items, json, "needs_action", FeedCategory::NeedsAction);
    let ghost ab = items@;
    push_feed_section(&mut items, json, "activity", FeedCategory::Activity);
    let ghost abc = items@;
    push_feed_section(&mut items, json, "agent_activity", FeedCategory::AgentActivity);
    proof {
        let b = ab.subrange(a.len() as int, ab.len() as int);
        let c = abc.subrange(ab.len() as int, abc.len() as int);
        let d = items@.subrange(abc.len() as int, items@.len() as int);
        assert(a.subrange(0, 0) =~= Seq::<FeedItem>::empty());
        assert(a =~= a.subrange(0, a.len() as int));
        assert(ab =~= a + b);
        assert(abc =~= a + b + c);
        assert(items@ =~= a + b + c + d);
    }
    let total = items.len() as u32;
    HomeFeed { items, total }
}

} // verus!
