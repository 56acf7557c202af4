// Conversion of relay JSON objects into the records handed to the native shells.

use vstd::prelude::*;

use crate::json::{
    array_member, json_array, str_at, bool_member, json_get, json_str, opt_view, or_default, str_member, u64_member,
    i64_member, JsonValue,
};
use crate::store::{channel_type_named, parse_channel_type, parse_visibility, visibility_named};
use crate::text::{chars_of, has_prefix, parse_u64, parse_u64_spec, str_eq, strip_prefix};
use crate::time::{parse_rfc3339_seconds, rfc3339_seconds};
use crate::types::{
    Channel, ChannelMember, MediaAttachment, Message, ChannelType, ChannelVisibility, DmConversation, FeedCategory, FeedItem,
    MemberRole, SearchResult, UserProfile,
};

verus! {

// ---------------------------------------------------------------------------
// Channels
// ---------------------------------------------------------------------------

/// The channel type named under `channel_type` (a stream when absent).
pub open spec fn channel_type_member(v: JsonValue) -> ChannelType {
    match str_member(v, "channel_type"@) {
        Some(s) => channel_type_named(s),
        None => ChannelType::Stream,
    }
}

/// The visibility named under `visibility` (open when absent).
pub open spec fn visibility_member(v: JsonValue) -> ChannelVisibility {
    match str_member(v, "visibility"@) {
        Some(s) => visibility_named(s),
        None => ChannelVisibility::Open,
    }
}

/// The member count under `member_count`, cut to 32 bits (0 when absent).
pub open spec fn member_count_member(v: JsonValue) -> u32 {
    match u64_member(v, "member_count"@) {
        Some(n) => n as u32,
        None => 0,
    }
}

/// The Unix time of the RFC 3339 timestamp under `last_message_at`.
pub open spec fn last_message_time(v: JsonValue) -> Option<i64> {
    match str_member(v, "last_message_at"@) {
        Some(s) => rfc3339_seconds(s),
        None => None,
    }
}

/// A channel object carries the members a channel needs.
pub open spec fn channel_json_ok(v: JsonValue) -> bool {
    str_member(v, "id"@) is Some && str_member(v, "name"@) is Some
}

/// `c` is the channel that `v` describes, last active at `last_message_at`.
pub open spec fn channel_from_json(c: Channel, v: JsonValue, last_message_at: Option<i64>) -> bool {
    &&& str_member(v, "id"@) == Some(c.id@)
    &&& str_member(v, "name"@) == Some(c.name@)
    &&& opt_view(c.about) == str_member(v, "description"@)
    &&& opt_view(c.topic) == str_member(v, "topic"@)
    &&& c.channel_type == channel_type_member(v)
    &&& c.visibility == visibility_member(v)
    &&& c.member_count == member_count_member(v)
    &&& c.last_message_at == last_message_at
    &&& c.is_member == (bool_member(v, "is_member"@) == Some(true))
}

/// Builds the channel that `v` describes, with the last-message time given.
pub fn channel_from_json_at(v: &JsonValue, last_message_at: Option<i64>) -> (r: Option<Channel>)
    ensures
        r is Some <==> channel_json_ok(*v),
        r matches Some(c) ==> channel_from_json(c, *v, last_message_at),
{
    let id = match v.str_member("id") {
        Some(s) => s,
        None => return None,
    };
    let name = match v.str_member("name") {
        Some(s) => s,
        None => return None,
    };
    let channel_type = match v.get("channel_type") {
        Some(m) => match m.as_str() {
            Some(s) => parse_channel_type(s),
            None => ChannelType::Stream,
        },
        None => ChannelType::Stream,
    };
    let visibility = match v.get("visibility") {
        Some(m) => match m.as_str() {
            Some(s) => parse_visibility(s),
            None => ChannelVisibility::Open,
        },
        None => ChannelVisibility::Open,
    };
    let member_count: u32 = match v.u64_member("member_count") {
        Some(n) => #[verifier::truncate] (n as u32),
        None => 0,
    };
    let is_member = match v.bool_member("is_member") {
        Some(b) => b,
        None => false,
    };
    Some(Channel {
        id,
        name,
        about: v.str_member("description"),
        topic: v.str_member("topic"),
        channel_type,
        visibility,
        member_count,
        last_message_at,
        is_member,
    })
}

/// A channel read from JSON is a forum only when `channel_type` is
/// `forum`, a direct message channel only when it is `dm`, and a stream
/// otherwise (also when absent); it is private only when `visibility` is
/// `private`; it counts the user as a member only when `is_member` is
/// `true`; and its id and name are the object's.
pub proof fn law_channel_read(c: Channel, v: JsonValue, t: Option<i64>)
    requires
        channel_from_json(c, v, t),
    ensures
        c.channel_type == ChannelType::Forum <==> str_member(v, "channel_type"@) == Some("forum"@),
        c.channel_type == ChannelType::Dm <==> str_member(v, "channel_type"@) == Some("dm"@),
        c.visibility == ChannelVisibility::Private <==> str_member(v, "visibility"@) == Some("private"@),
        c.is_member <==> bool_member(v, "is_member"@) == Some(true),
        str_member(v, "id"@) == Some(c.id@),
        str_member(v, "name"@) == Some(c.name@),
        u64_member(v, "member_count"@) is None ==> c.member_count == 0,
        c.last_message_at == t,
{
    match str_member(v, "channel_type"@) {
        Some(s) => crate::store::law_channel_type_names(s),
        None => {},
    }
    match str_member(v, "visibility"@) {
        Some(s) => crate::store::law_visibility_names(s),
        None => {},
    }
    reveal_strlit("forum");
    reveal_strlit("dm");
    reveal_strlit("private");
}

/// Converts a channel JSON object from the REST API into a [`Channel`]; the
/// `last_message_at` timestamp is read by chrono.
pub fn json_to_channel(v: &JsonValue) -> (r: Option<Channel>)
    ensures
        r is Some <==> channel_json_ok(*v),
        r matches Some(c) ==> channel_from_json(c, *v, last_message_time(*v)),
{
    let last = match v.get("last_message_at") {
        Some(m) => match m.as_str() {
            Some(s) => parse_rfc3339_seconds(s),
            None => None,
        },
        None => None,
    };
    channel_from_json_at(v, last)
}

// ---------------------------------------------------------------------------
// Profiles and members
// ---------------------------------------------------------------------------

/// `p` is the profile that `v` describes.
pub open spec fn profile_from_json(p: UserProfile, v: JsonValue) -> bool {
    &&& str_member(v, "pubkey"@) == Some(p.pubkey@)
    &&& opt_view(p.display_name) == str_member(v, "display_name"@)
    &&& opt_view(p.picture) == str_member(v, "avatar_url"@)
    &&& opt_view(p.about) == str_member(v, "about"@)
    &&& opt_view(p.nip05) == str_member(v, "nip05_handle"@)
}

/// Converts a user profile JSON object into a [`UserProfile`].
pub fn json_to_profile(v: &JsonValue) -> (r: Option<UserProfile>)
    ensures
        r is Some <==> str_member(*v, "pubkey"@) is Some,
        r matches Some(p) ==> profile_from_json(p, *v),
{
    let pubkey = match v.str_member("pubkey") {
        Some(s) => s,
        None => return None,
    };
    Some(UserProfile {
        pubkey,
        display_name: v.str_member("display_name"),
        picture: v.str_member("avatar_url"),
        about: v.str_member("about"),
        nip05: v.str_member("nip05_handle"),
    })
}

/// The member role a name stands for (a plain member when unknown).
pub open spec fn role_named(s: Seq<char>) -> MemberRole {
    if s == "owner"@ {
        MemberRole::Owner
    } else if s == "admin"@ {
        MemberRole::Admin
    } else if s == "guest"@ {
        MemberRole::Guest
    } else if s == "bot"@ {
        MemberRole::Bot
    } else {
        MemberRole::Member
    }
}

/// The role named under `role` (a plain member when absent).
pub open spec fn role_member(v: JsonValue) -> MemberRole {
    match str_member(v, "role"@) {
        Some(s) => role_named(s),
        None => MemberRole::Member,
    }
}

/// `m` is the channel member that `v` describes: a profile is attached when
/// `v` has a `display_name` member, whatever its value.
pub open spec fn member_from_json(m: ChannelMember, v: JsonValue) -> bool {
    &&& str_member(v, "pubkey"@) == Some(m.pubkey@)
    &&& m.role == role_member(v)
    &&& (m.profile is Some <==> json_get(v, "display_name"@) is Some)
    &&& (m.profile matches Some(p) ==> {
        &&& p.pubkey@ == m.pubkey@
        &&& opt_view(p.display_name) == str_member(v, "display_name"@)
        &&& p.picture is None
        &&& p.about is None
        &&& p.nip05 is None
    })
}

/// Each of the names `owner`, `admin`, `guest` and `bot` stands for its own
/// role (Owner, Admin, Guest, Bot), no other name stands for any of these
/// four, and every other name is a plain member.
pub proof fn law_role_names(s: Seq<char>)
    ensures
        role_named(s) == MemberRole::Owner <==> s == "owner"@,
        role_named(s) == MemberRole::Admin <==> s == "admin"@,
        role_named(s) == MemberRole::Guest <==> s == "guest"@,
        role_named(s) == MemberRole::Bot <==> s == "bot"@,
        role_named(s) == MemberRole::Member <==> (s != "owner"@ && s != "admin"@ && s != "guest"@ && s
            != "bot"@),
{
    reveal_strlit("owner");
    reveal_strlit("admin");
    reveal_strlit("guest");
    reveal_strlit("bot");
    assert("owner"@ != "admin"@ && "owner"@ != "guest"@ && "owner"@ != "bot"@ && "admin"@ != "guest"@ && "admin"@
        != "bot"@ && "guest"@ != "bot"@) by {
        assert("owner"@[0] != "admin"@[0] && "owner"@[0] != "guest"@[0] && "owner"@[0] != "bot"@[0]);
        assert("admin"@[0] != "guest"@[0] && "admin"@[0] != "bot"@[0] && "guest"@[0] != "bot"@[0]);
    }
}

/// A member read from JSON has the role its `role` string names (see
/// [`law_role_names`]), and is a plain member when `role` is absent or not
/// a string; its pubkey is the `pubkey` string.
pub proof fn law_member_role(m: ChannelMember, v: JsonValue)
    requires
        member_from_json(m, v),
    ensures
        str_member(v, "role"@) == Some("owner"@) ==> m.role == MemberRole::Owner,
        str_member(v, "role"@) == Some("admin"@) ==> m.role == MemberRole::Admin,
        str_member(v, "role"@) == Some("guest"@) ==> m.role == MemberRole::Guest,
        str_member(v, "role"@) == Some("bot"@) ==> m.role == MemberRole::Bot,
        str_member(v, "role"@) is None ==> m.role == MemberRole::Member,
        str_member(v, "pubkey"@) == Some(m.pubkey@),
{
    if let Some(s) = str_member(v, "role"@) {
        law_role_names(s);
    }
}

/// The member role a name stands for.
pub fn parse_role(s: &str) -> (r: MemberRole)
    ensures
        r == role_named(s@),
{
    if str_eq(s, "owner") {
        MemberRole::Owner
    } else if str_eq(s, "admin") {
        MemberRole::Admin
    } else if str_eq(s, "guest") {
        MemberRole::Guest
    } else if str_eq(s, "bot") {
        MemberRole::Bot
    } else {
        MemberRole::Member
    }
}

/// Converts a member JSON object into a [`ChannelMember`].
pub fn json_to_member(v: &JsonValue) -> (r: Option<ChannelMember>)
    ensures
        r is Some <==> str_member(*v, "pubkey"@) is Some,
        r matches Some(m) ==> member_from_json(m, *v),
{
    let pubkey = match v.str_member("pubkey") {
        Some(s) => s,
        None => return None,
    };
    let role = match v.get("role") {
        Some(m) => match m.as_str() {
            Some(s) => parse_role(s),
            None => MemberRole::Member,
        },
        None => MemberRole::Member,
    };
    let profile = match v.get("display_name") {
        Some(_) => Some(
            UserProfile {
                pubkey: pubkey.clone(),
                display_name: v.str_member("display_name"),
                picture: None,
                about: None,
                nip05: None,
            },
        ),
        None => None,
    };
    Some(ChannelMember { pubkey, role, profile })
}

// ---------------------------------------------------------------------------
// Search results and feed items
// ---------------------------------------------------------------------------

/// The string under `key`, or the empty string.
pub open spec fn text_member(v: JsonValue, key: Seq<char>) -> Seq<char> {
    or_default(str_member(v, key), ""@)
}

/// The `i64` under `key`, or 0.
pub open spec fn time_member(v: JsonValue, key: Seq<char>) -> i64 {
    match i64_member(v, key) {
        Some(t) => t,
        None => 0,
    }
}

/// The string under `key`, or the empty string.
fn text_or_empty(v: &JsonValue, key: &str) -> (r: String)
    ensures
        r@ == text_member(*v, key@),
{
    match v.str_member(key) {
        Some(s) => s,
        None => "".to_string(),
    }
}

/// The `i64` under `key`, or 0.
fn i64_or_zero(v: &JsonValue, key: &str) -> (r: i64)
    ensures
        r == time_member(*v, key@),
{
    match v.i64_member(key) {
        Some(t) => t,
        None => 0,
    }
}

/// `s` is the search hit that `v` describes.
pub open spec fn search_result_from_json(s: SearchResult, v: JsonValue) -> bool {
    &&& str_member(v, "event_id"@) == Some(s.event_id@)
    &&& str_member(v, "channel_id"@) == Some(s.channel_id@)
    &&& s.channel_name@ == text_member(v, "channel_name"@)
    &&& s.content@ == text_member(v, "content"@)
    &&& s.author_pubkey@ == text_member(v, "pubkey"@)
    &&& s.created_at == time_member(v, "created_at"@)
}

/// Converts a search hit JSON object into a [`SearchResult`].
pub fn json_to_search_result(v: &JsonValue) -> (r: Option<SearchResult>)
    ensures
        r is Some <==> (str_member(*v, "event_id"@) is Some && str_member(*v, "channel_id"@) is Some),
        r matches Some(s) ==> search_result_from_json(s, *v),
{
    let event_id = match v.str_member("event_id") {
        Some(s) => s,
        None => return None,
    };
    let channel_id = match v.str_member("channel_id") {
        Some(s) => s,
        None => return None,
    };
    Some(SearchResult {
        event_id,
        channel_id,
        channel_name: text_or_empty(v, "channel_name"),
        content: text_or_empty(v, "content"),
        author_pubkey: text_or_empty(v, "pubkey"),
        created_at: i64_or_zero(v, "created_at"),
    })
}

/// The identifier of a feed item: the string under `id`, or, only when there
/// is no `id` member at all, the string under `event_id`.
pub open spec fn feed_item_id(v: JsonValue) -> Option<Seq<char>> {
    match json_get(v, "id"@) {
        Some(m) => json_str(m),
        None => str_member(v, "event_id"@),
    }
}

/// The event kind under `kind`, cut to 32 bits (9 when absent).
pub open spec fn kind_member(v: JsonValue) -> u32 {
    match u64_member(v, "kind"@) {
        Some(k) => k as u32,
        None => 9,
    }
}

/// `f` is the feed item that `v` describes, in `category`.
pub open spec fn feed_item_from_json(f: FeedItem, v: JsonValue, category: FeedCategory) -> bool {
    &&& feed_item_id(v) == Some(f.event_id@)
    &&& f.channel_id@ == text_member(v, "channel_id"@)
    &&& f.channel_name@ == text_member(v, "channel_name"@)
    &&& f.content@ == text_member(v, "content"@)
    &&& f.author_pubkey@ == text_member(v, "pubkey"@)
    &&& f.created_at == time_member(v, "created_at"@)
    &&& f.kind == kind_member(v)
    &&& f.category == category
}

/// A feed item is identified by its `id` string, or by its `event_id`
/// string only when it has no `id` member at all; it keeps the category it
/// was read for; its kind is the `kind` number, 9 (a message) when absent.
pub proof fn law_feed_item(f: FeedItem, v: JsonValue, category: FeedCategory)
    requires
        feed_item_from_json(f, v, category),
    ensures
        f.category == category,
        json_get(v, "id"@) is Some ==> str_member(v, "id"@) == Some(f.event_id@),
        json_get(v, "id"@) is None ==> str_member(v, "event_id"@) == Some(f.event_id@),
        u64_member(v, "kind"@) is None ==> f.kind == 9,
        match u64_member(v, "kind"@) {
            Some(k) => k <= u32::MAX ==> f.kind == k,
            None => f.kind == 9,
        },
        str_member(v, "channel_id"@) matches Some(c) ==> f.channel_id@ == c,
        str_member(v, "content"@) matches Some(c) ==> f.content@ == c,
        str_member(v, "pubkey"@) matches Some(a) ==> f.author_pubkey@ == a,
{
}

/// Converts a feed item JSON object into a [`FeedItem`] of `category`.
pub fn json_to_feed_item(v: &JsonValue, category: FeedCategory) -> (r: Option<FeedItem>)
    ensures
        r is Some <==> feed_item_id(*v) is Some,
        r matches Some(f) ==> feed_item_from_json(f, *v, category),
{
    let id_value = match v.get("id") {
        Some(m) => m,
        None => match v.get("event_id") {
            Some(m) => m,
            None => return None,
        },
    };
    let event_id = match id_value.as_str() {
        Some(s) => s.to_string(),
        None => return None,
    };
    let kind: u32 = match v.u64_member("kind") {
        Some(k) => #[verifier::truncate] (k as u32),
        None => 9,
    };
    Some(FeedItem {
        event_id,
        channel_id: text_or_empty(v, "channel_id"),
        channel_name: text_or_empty(v, "channel_name"),
        content: text_or_empty(v, "content"),
        author_pubkey: text_or_empty(v, "pubkey"),
        created_at: i64_or_zero(v, "created_at"),
        kind,
        category,
    })
}

// ---------------------------------------------------------------------------
// Direct-message conversations
// ---------------------------------------------------------------------------

/// The texts of the string elements of `items`, in order.
pub open spec fn string_items(items: Seq<JsonValue>) -> Seq<Seq<char>>
    decreases items.len(),
{
    if items.len() == 0 {
        seq![]
    } else {
        let rest = string_items(items.drop_last());
        match json_str(items.last()) {
            Some(s) => rest.push(s),
            None => rest,
        }
    }
}

/// `ps` are bare profiles (a pubkey and nothing else) for `keys`, in order.
pub open spec fn bare_profiles(ps: Seq<UserProfile>, keys: Seq<Seq<char>>) -> bool {
    &&& ps.len() == keys.len()
    &&& forall|i: int|
        0 <= i < ps.len() ==> {
            &&& (#[trigger] ps[i]).pubkey@ == keys[i]
            &&& ps[i].display_name is None
            &&& ps[i].picture is None
            &&& ps[i].about is None
            &&& ps[i].nip05 is None
        }
}

/// The participants listed under `participants` (none when absent).
pub open spec fn participant_keys(v: JsonValue) -> Seq<Seq<char>> {
    match array_member(v, "participants"@) {
        Some(items) => string_items(items),
        None => seq![],
    }
}

/// Bare profiles for the string elements of `items`.
fn bare_profiles_of(items: &Vec<JsonValue>) -> (r: Vec<UserProfile>)
    ensures
        bare_profiles(r@, string_items(items@)),
{
    let mut r: Vec<UserProfile> = Vec::new();
    let mut i: usize = 0;
    assert(items@.take(0) =~= Seq::<JsonValue>::empty());
    while i < items.len()
        invariant
            i <= items@.len(),
            bare_profiles(r@, string_items(items@.take(i as int))),
        decreases items@.len() - i,
    {
        assert(items@.take(i + 1).drop_last() =~= items@.take(i as int));
        assert(items@.take(i + 1).last() == items@[i as int]);
        match items[i].as_str() {
            Some(s) => {
                let ghost before = r@;
                r.push(
                    UserProfile {
                        pubkey: s.to_string(),
                        display_name: None,
                        picture: None,
                        about: None,
                        nip05: None,
                    },
                );
                assert forall|k: int| 0 <= k < r@.len() implies (#[trigger] r@[k]).pubkey@
                    == string_items(items@.take(i + 1))[k] by {
                    if k < before.len() {
                        assert(r@[k] == before[k]);
                    }
                }
            },
            None => {},
        }
        i = i + 1;
    }
    assert(items@.take(items@.len() as int) =~= items@);
    r
}

/// `d` is the conversation that `v` describes.
pub open spec fn dm_from_json(d: DmConversation, v: JsonValue) -> bool {
    &&& str_member(v, "id"@) == Some(d.channel_id@)
    &&& bare_profiles(d.participants@, participant_keys(v))
    &&& d.last_message is None
}

/// Converts a DM conversation JSON object into a [`DmConversation`].
pub fn json_to_dm(v: &JsonValue) -> (r: Option<DmConversation>)
    ensures
        r is Some <==> str_member(*v, "id"@) is Some,
        r matches Some(d) ==> dm_from_json(d, *v),
{
    let participants = match v.array_member("participants") {
        Some(items) => bare_profiles_of(items),
        None => Vec::new(),
    };
    let channel_id = match v.str_member("id") {
        Some(s) => s,
        None => return None,
    };
    Some(DmConversation { channel_id, participants, last_message: None })
}


// ---------------------------------------------------------------------------
// Messages
// ---------------------------------------------------------------------------

/// A tag naming channel membership: `["h", <channel>, ...]`.
pub open spec fn is_h_tag(t: JsonValue) -> bool {
    str_at(t, 0) == Some("h"@)
}

/// An event reference carrying `marker` in its fourth slot:
/// `["e", <event id>, <relay>, <marker>, ...]`.
pub open spec fn is_marked_e_tag(t: JsonValue, marker: Seq<char>) -> bool {
    str_at(t, 0) == Some("e"@) && str_at(t, 3) == Some(marker)
}

/// A media metadata tag: `["imeta", "<key> <value>", ...]`.
pub open spec fn is_imeta_tag(t: JsonValue) -> bool {
    str_at(t, 0) == Some("imeta"@)
}

/// The first `h` tag.
pub open spec fn first_h_tag(tags: Seq<JsonValue>) -> Option<JsonValue>
    decreases tags.len(),
{
    if tags.len() == 0 {
        None
    } else if is_h_tag(tags[0]) {
        Some(tags[0])
    } else {
        first_h_tag(tags.skip(1))
    }
}

/// The first `e` tag marked `marker`.
pub open spec fn first_marked_e_tag(tags: Seq<JsonValue>, marker: Seq<char>) -> Option<JsonValue>
    decreases tags.len(),
{
    if tags.len() == 0 {
        None
    } else if is_marked_e_tag(tags[0], marker) {
        Some(tags[0])
    } else {
        first_marked_e_tag(tags.skip(1), marker)
    }
}

/// The channel named by the first `h` tag (empty when there is none or its
/// second slot is not a string).
pub open spec fn channel_of_tags(tags: Seq<JsonValue>) -> Seq<char> {
    match first_h_tag(tags) {
        Some(t) => or_default(str_at(t, 1), ""@),
        None => ""@,
    }
}

/// The event referenced by the first `e` tag marked `marker`.
pub open spec fn marked_reference(tags: Seq<JsonValue>, marker: Seq<char>) -> Option<Seq<char>> {
    match first_marked_e_tag(tags, marker) {
        Some(t) => str_at(t, 1),
        None => None,
    }
}

/// What the parts of an `imeta` tag say of a media attachment.
pub struct MediaFields {
    pub url: Option<Seq<char>>,
    pub mime_type: Option<Seq<char>>,
    pub size_bytes: Option<u64>,
    pub dimensions: Option<Seq<char>>,
    pub blurhash: Option<Seq<char>>,
    pub thumbnail_url: Option<Seq<char>>,
}

/// Nothing known yet.
pub open spec fn no_media_fields() -> MediaFields {
    MediaFields {
        url: None,
        mime_type: None,
        size_bytes: None,
        dimensions: None,
        blurhash: None,
        thumbnail_url: None,
    }
}

/// Reads one `"<key> <value>"` part; a later part overrides an earlier one,
/// and a `size` that does not read as a `u64` clears the size.
pub open spec fn imeta_step(acc: MediaFields, part: Seq<char>) -> MediaFields {
    if has_prefix(part, "url "@) {
        MediaFields { url: Some(part.skip("url "@.len() as int)), ..acc }
    } else if has_prefix(part, "m "@) {
        MediaFields { mime_type: Some(part.skip("m "@.len() as int)), ..acc }
    } else if has_prefix(part, "size "@) {
        MediaFields { size_bytes: parse_u64_spec(part.skip("size "@.len() as int)), ..acc }
    } else if has_prefix(part, "dim "@) {
        MediaFields { dimensions: Some(part.skip("dim "@.len() as int)), ..acc }
    } else if has_prefix(part, "blurhash "@) {
        MediaFields { blurhash: Some(part.skip("blurhash "@.len() as int)), ..acc }
    } else if has_prefix(part, "thumb "@) {
        MediaFields { thumbnail_url: Some(part.skip("thumb "@.len() as int)), ..acc }
    } else {
        acc
    }
}

/// What a sequence of parts says, read from the first to the last.
pub open spec fn imeta_fields(parts: Seq<Seq<char>>) -> MediaFields
    decreases parts.len(),
{
    if parts.len() == 0 {
        no_media_fields()
    } else {
        imeta_step(imeta_fields(parts.drop_last()), parts.last())
    }
}

/// The parts `url <u>`, `m <m>`, `dim <d>`, `blurhash <b>` and
/// `thumb <t>` of an `imeta` tag give an attachment at URL `u` of type `m`,
/// with dimensions `d`, blurhash `b` and thumbnail `t`, and no size.
pub proof fn law_imeta_parts(u: Seq<char>, m: Seq<char>, d: Seq<char>, b: Seq<char>, t: Seq<char>)
    ensures
        imeta_fields(seq!["url "@ + u, "m "@ + m, "dim "@ + d, "blurhash "@ + b, "thumb "@ + t]) == (MediaFields {
            url: Some(u),
            mime_type: Some(m),
            size_bytes: None,
            dimensions: Some(d),
            blurhash: Some(b),
            thumbnail_url: Some(t),
        }),
{
    reveal_strlit("url ");
    reveal_strlit("m ");
    reveal_strlit("size ");
    reveal_strlit("dim ");
    reveal_strlit("blurhash ");
    reveal_strlit("thumb ");
    let p0 = "url "@ + u;
    let p1 = "m "@ + m;
    let p2 = "dim "@ + d;
    let p3 = "blurhash "@ + b;
    let p4 = "thumb "@ + t;
    let parts = seq![p0, p1, p2, p3, p4];
    assert(p0.take(4) =~= "url "@);
    assert(p0.skip(4) =~= u);
    assert(p1[0] == 'm' && p2[0] == 'd' && p3[0] == 'b' && p4[0] == 't');
    assert(p1.take(2) =~= "m "@);
    assert(p1.skip(2) =~= m);
    assert(p2.take(4) =~= "dim "@);
    assert(p2.skip(4) =~= d);
    assert(p3.take(9) =~= "blurhash "@);
    assert(p3.skip(9) =~= b);
    assert(p4.take(6) =~= "thumb "@);
    assert(p4.skip(6) =~= t);
    assert(!has_prefix(p1, "url "@)) by {
        if has_prefix(p1, "url "@) {
            assert(p1.take(4)[0] == p1[0]);
        }
    }
    assert(!has_prefix(p2, "url "@) && !has_prefix(p2, "m "@) && !has_prefix(p2, "size "@)) by {
        if has_prefix(p2, "url "@) { assert(p2.take(4)[0] == p2[0]); }
        if has_prefix(p2, "m "@) { assert(p2.take(2)[0] == p2[0]); }
        if has_prefix(p2, "size "@) { assert(p2.take(5)[0] == p2[0]); }
    }
    assert(!has_prefix(p3, "url "@) && !has_prefix(p3, "m "@) && !has_prefix(p3, "size "@) && !has_prefix(
        p3,
        "dim "@,
    )) by {
        if has_prefix(p3, "url "@) { assert(p3.take(4)[0] == p3[0]); }
        if has_prefix(p3, "m "@) { assert(p3.take(2)[0] == p3[0]); }
        if has_prefix(p3, "size "@) { assert(p3.take(5)[0] == p3[0]); }
        if has_prefix(p3, "dim "@) { assert(p3.take(4)[0] == p3[0]); }
    }
    assert(!has_prefix(p4, "url "@) && !has_prefix(p4, "m "@) && !has_prefix(p4, "size "@) && !has_prefix(
        p4,
        "dim "@,
    ) && !has_prefix(p4, "blurhash "@)) by {
        if has_prefix(p4, "url "@) { assert(p4.take(4)[0] == p4[0]); }
        if has_prefix(p4, "m "@) { assert(p4.take(2)[0] == p4[0]); }
        if has_prefix(p4, "size "@) { assert(p4.take(5)[0] == p4[0]); }
        if has_prefix(p4, "dim "@) { assert(p4.take(4)[0] == p4[0]); }
        if has_prefix(p4, "blurhash "@) { assert(p4.take(9)[0] == p4[0]); }
    }
    assert(parts.drop_last() =~= seq![p0, p1, p2, p3]);
    assert(seq![p0, p1, p2, p3].drop_last() =~= seq![p0, p1, p2]);
    assert(seq![p0, p1, p2].drop_last() =~= seq![p0, p1]);
    assert(seq![p0, p1].drop_last() =~= seq![p0]);
    assert(seq![p0].drop_last() =~= Seq::<Seq<char>>::empty());
    reveal_with_fuel(imeta_fields, 6);
}

/// The string parts of a tag after its name.
pub open spec fn tag_parts(t: JsonValue) -> Seq<Seq<char>> {
    match json_array(t) {
        Some(items) => string_items(items.skip(1)),
        None => seq![],
    }
}

/// The media described by the `imeta` tags that name a URL, in order.
pub open spec fn media_of(tags: Seq<JsonValue>) -> Seq<MediaFields>
    decreases tags.len(),
{
    if tags.len() == 0 {
        seq![]
    } else {
        let rest = media_of(tags.drop_last());
        let t = tags.last();
        if is_imeta_tag(t) && imeta_fields(tag_parts(t)).url is Some {
            rest.push(imeta_fields(tag_parts(t)))
        } else {
            rest
        }
    }
}

/// `a` is the attachment that `f` describes.
pub open spec fn attachment_from(a: MediaAttachment, f: MediaFields) -> bool {
    &&& f.url == Some(a.url@)
    &&& a.mime_type@ == or_default(f.mime_type, "application/octet-stream"@)
    &&& a.size_bytes == f.size_bytes
    &&& opt_view(a.dimensions) == f.dimensions
    &&& opt_view(a.blurhash) == f.blurhash
    &&& opt_view(a.thumbnail_url) == f.thumbnail_url
}

/// `atts` are the attachments that `fs` describe, in order.
pub open spec fn attachments_from(atts: Seq<MediaAttachment>, fs: Seq<MediaFields>) -> bool {
    atts.len() == fs.len() && forall|i: int| 0 <= i < atts.len() ==> attachment_from(#[trigger] atts[i], fs[i])
}

/// An event object carries the members a message needs.
pub open spec fn message_json_ok(v: JsonValue) -> bool {
    &&& array_member(v, "tags"@) is Some
    &&& str_member(v, "id"@) is Some
    &&& str_member(v, "pubkey"@) is Some
    &&& str_member(v, "content"@) is Some
    &&& i64_member(v, "created_at"@) is Some
    &&& u64_member(v, "kind"@) is Some
}

/// `m` is the message that the event object `v` describes.
pub open spec fn message_from_json(m: Message, v: JsonValue) -> bool {
    let tags = array_member(v, "tags"@)->Some_0;
    &&& str_member(v, "id"@) == Some(m.event_id@)
    &&& m.channel_id@ == channel_of_tags(tags)
    &&& str_member(v, "pubkey"@) == Some(m.author_pubkey@)
    &&& str_member(v, "content"@) == Some(m.content@)
    &&& i64_member(v, "created_at"@) == Some(m.created_at)
    &&& m.kind == (u64_member(v, "kind"@)->Some_0) as u32
    &&& opt_view(m.reply_to) == marked_reference(tags, "reply"@)
    &&& opt_view(m.thread_root) == marked_reference(tags, "root"@)
    &&& m.reactions@.len() == 0
    &&& attachments_from(m.media@, media_of(tags))
    &&& m.reply_count == 0
    &&& m.author_profile is None
}

/// The first `h` tag among `tags`.
fn find_h_tag(tags: &Vec<JsonValue>) -> (r: Option<&JsonValue>)
    ensures
        r is Some <==> first_h_tag(tags@) is Some,
        r matches Some(t) ==> first_h_tag(tags@) == Some(*t),
{
    let mut i: usize = 0;
    assert(tags@.skip(0) =~= tags@);
    while i < tags.len()
        invariant
            i <= tags@.len(),
            first_h_tag(tags@) == first_h_tag(tags@.skip(i as int)),
        decreases tags@.len() - i,
    {
        assert(tags@.skip(i as int).skip(1) =~= tags@.skip(i + 1));
        assert(tags@.skip(i as int)[0] == tags@[i as int]);
        let t = &tags[i];
        let named_h = match t.at(0) {
            Some(n) => match n.as_str() {
                Some(s) => str_eq(s, "h"),
                None => false,
            },
            None => false,
        };
        if named_h {
            return Some(t);
        }
        i = i + 1;
    }
    assert(tags@.skip(i as int).len() == 0);
    None
}

/// The first `e` tag marked `marker` among `tags`.
fn find_marked_e_tag<'a>(tags: &'a Vec<JsonValue>, marker: &str) -> (r: Option<&'a JsonValue>)
    ensures
        r is Some <==> first_marked_e_tag(tags@, marker@) is Some,
        r matches Some(t) ==> first_marked_e_tag(tags@, marker@) == Some(*t),
{
    let mut i: usize = 0;
    assert(tags@.skip(0) =~= tags@);
    while i < tags.len()
        invariant
            i <= tags@.len(),
            first_marked_e_tag(tags@, marker@) == first_marked_e_tag(tags@.skip(i as int), marker@),
        decreases tags@.len() - i,
    {
        assert(tags@.skip(i as int).skip(1) =~= tags@.skip(i + 1));
        assert(tags@.skip(i as int)[0] == tags@[i as int]);
        let t = &tags[i];
        let named_e = match t.at(0) {
            Some(n) => match n.as_str() {
                Some(s) => str_eq(s, "e"),
                None => false,
            },
            None => false,
        };
        let marked = match t.at(3) {
            Some(n) => match n.as_str() {
                Some(s) => str_eq(s, marker),
                None => false,
            },
            None => false,
        };
        if named_e && marked {
            return Some(t);
        }
        i = i + 1;
    }
    assert(tags@.skip(i as int).len() == 0);
    None
}

/// The string in the second slot of an optional tag.
fn second_slot(t: Option<&JsonValue>) -> (r: Option<String>)
    ensures
        opt_view(r) == (match t {
            Some(tag) => str_at(*tag, 1),
            None => None,
        }),
{
    match t {
        Some(tag) => match tag.at(1) {
            Some(n) => match n.as_str() {
                Some(s) => Some(s.to_string()),
                None => None,
            },
            None => None,
        },
        None => None,
    }
}

/// Exec counterpart of [`MediaFields`].
struct MediaParts {
    url: Option<String>,
    mime_type: Option<String>,
    size_bytes: Option<u64>,
    dimensions: Option<String>,
    blurhash: Option<String>,
    thumbnail_url: Option<String>,
}

spec fn parts_view(p: MediaParts) -> MediaFields {
    MediaFields {
        url: opt_view(p.url),
        mime_type: opt_view(p.mime_type),
        size_bytes: p.size_bytes,
        dimensions: opt_view(p.dimensions),
        blurhash: opt_view(p.blurhash),
        thumbnail_url: opt_view(p.thumbnail_url),
    }
}

/// Reads one part of an `imeta` tag into `acc`.
fn read_imeta_part(acc: &mut MediaParts, part: &str)
    ensures
        parts_view(*final(acc)) == imeta_step(parts_view(*old(acc)), part@),
{
    let p_url = chars_of("url ");
    let p_m = chars_of("m ");
    let p_size = chars_of("size ");
    let p_dim = chars_of("dim ");
    let p_blurhash = chars_of("blurhash ");
    let p_thumb = chars_of("thumb ");
    if let Some(val) = strip_prefix(part, p_url.as_slice()) {
        acc.url = Some(val);
    } else if let Some(val) = strip_prefix(part, p_m.as_slice()) {
        acc.mime_type = Some(val);
    } else if let Some(val) = strip_prefix(part, p_size.as_slice()) {
        acc.size_bytes = parse_u64(val.as_str());
    } else if let Some(val) = strip_prefix(part, p_dim.as_slice()) {
        acc.dimensions = Some(val);
    } else if let Some(val) = strip_prefix(part, p_blurhash.as_slice()) {
        acc.blurhash = Some(val);
    } else if let Some(val) = strip_prefix(part, p_thumb.as_slice()) {
        acc.thumbnail_url = Some(val);
    }
}

/// Reads the parts of an `imeta` tag (its string elements after the first).
fn read_imeta(items: &Vec<JsonValue>) -> (r: MediaParts)
    requires
        items@.len() > 0,
    ensures
        parts_view(r) == imeta_fields(string_items(items@.skip(1))),
{
    let mut acc = MediaParts {
        url: None,
        mime_type: None,
        size_bytes: None,
        dimensions: None,
        blurhash: None,
        thumbnail_url: None,
    };
    let mut i: usize = 1;
    assert(items@.skip(1).take(0) =~= Seq::<JsonValue>::empty());
    while i < items.len()
        invariant
            1 <= i <= items@.len(),
            parts_view(acc) == imeta_fields(string_items(items@.skip(1).take(i - 1))),
        decreases items@.len() - i,
    {
        let ghost tail = items@.skip(1);
        assert(tail.take(i as int).drop_last() =~= tail.take(i - 1));
        assert(tail.take(i as int).last() == items@[i as int]);
        match items[i].as_str() {
            Some(s) => {
                read_imeta_part(&mut acc, s);
                assert(string_items(tail.take(i as int)) == string_items(tail.take(i - 1)).push(s@));
                assert(string_items(tail.take(i as int)).drop_last() =~= string_items(tail.take(i - 1)));
            },
            None => {},
        }
        i = i + 1;
    }
    assert(items@.skip(1).take(items@.len() - 1) =~= items@.skip(1));
    acc
}

/// The attachments described by the `imeta` tags among `tags`.
fn media_from_tags(tags: &Vec<JsonValue>) -> (r: Vec<MediaAttachment>)
    ensures
        attachments_from(r@, media_of(tags@)),
{
    let mut r: Vec<MediaAttachment> = Vec::new();
    let mut i: usize = 0;
    assert(tags@.take(0) =~= Seq::<JsonValue>::empty());
    while i < tags.len()
        invariant
            i <= tags@.len(),
            attachments_from(r@, media_of(tags@.take(i as int))),
        decreases tags@.len() - i,
    {
        assert(tags@.take(i + 1).drop_last() =~= tags@.take(i as int));
        assert(tags@.take(i + 1).last() == tags@[i as int]);
        let t = &tags[i];
        let named_imeta = match t.at(0) {
            Some(n) => match n.as_str() {
                Some(s) => str_eq(s, "imeta"),
                None => false,
            },
            None => false,
        };
        if named_imeta {
            if let Some(items) = t.as_array() {
                let parts = read_imeta(items);
                if let Some(url) = parts.url {
                    let ghost before = r@;
                    let ghost f = parts_view(parts);
                    let mime_type = match parts.mime_type {
                        Some(m) => m,
                        None => "application/octet-stream".to_string(),
                    };
                    r.push(
                        MediaAttachment {
                            url,
                            mime_type,
                            size_bytes: parts.size_bytes,
                            dimensions: parts.dimensions,
                            blurhash: parts.blurhash,
                            thumbnail_url: parts.thumbnail_url,
                        },
                    );
                    assert forall|k: int| 0 <= k < r@.len() implies attachment_from(
                        #[trigger] r@[k],
                        media_of(tags@.take(i + 1))[k],
                    ) by {
                        if k < before.len() {
                            assert(r@[k] == before[k]);
                        }
                    }
                }
            }
        }
        i = i + 1;
    }
    assert(tags@.take(tags@.len() as int) =~= tags@);
    r
}

/// The first tag marked `marker` is one of the tags, and there is none when
/// no tag is an `e` tag marked `marker`.
proof fn lemma_first_marked(tags: Seq<JsonValue>, marker: Seq<char>)
    ensures
        first_marked_e_tag(tags, marker) matches Some(t) ==> exists|i: int|
            0 <= i < tags.len() && tags[i] == t && #[trigger] is_marked_e_tag(tags[i], marker),
        (forall|i: int| 0 <= i < tags.len() ==> !#[trigger] is_marked_e_tag(tags[i], marker))
            ==> first_marked_e_tag(tags, marker) is None,
    decreases tags.len(),
{
    if tags.len() > 0 {
        lemma_first_marked(tags.skip(1), marker);
        if first_marked_e_tag(tags, marker) is Some && !is_marked_e_tag(tags[0], marker) {
            let j = choose|j: int|
                0 <= j < tags.skip(1).len() && tags.skip(1)[j] == first_marked_e_tag(tags, marker)->Some_0
                    && #[trigger] is_marked_e_tag(tags.skip(1)[j], marker);
            assert(tags[j + 1] == tags.skip(1)[j]);
        }
        if forall|i: int| 0 <= i < tags.len() ==> !#[trigger] is_marked_e_tag(tags[i], marker) {
            assert forall|j: int| 0 <= j < tags.skip(1).len() implies !#[trigger] is_marked_e_tag(
                tags.skip(1)[j],
                marker,
            ) by {
                assert(tags.skip(1)[j] == tags[j + 1]);
            }
        }
    }
}

/// The first `h` tag is one of the tags, and there is none when no tag is
/// an `h` tag.
proof fn lemma_first_h(tags: Seq<JsonValue>)
    ensures
        first_h_tag(tags) matches Some(t) ==> exists|i: int|
            0 <= i < tags.len() && tags[i] == t && #[trigger] is_h_tag(tags[i]),
        (forall|i: int| 0 <= i < tags.len() ==> !#[trigger] is_h_tag(tags[i])) ==> first_h_tag(tags) is None,
    decreases tags.len(),
{
    if tags.len() > 0 {
        lemma_first_h(tags.skip(1));
        if first_h_tag(tags) is Some && !is_h_tag(tags[0]) {
            let j = choose|j: int|
                0 <= j < tags.skip(1).len() && tags.skip(1)[j] == first_h_tag(tags)->Some_0
                    && #[trigger] is_h_tag(tags.skip(1)[j]);
            assert(tags[j + 1] == tags.skip(1)[j]);
        }
        if forall|i: int| 0 <= i < tags.len() ==> !#[trigger] is_h_tag(tags[i]) {
            assert forall|j: int| 0 <= j < tags.skip(1).len() implies !#[trigger] is_h_tag(tags.skip(1)[j]) by {
                assert(tags.skip(1)[j] == tags[j + 1]);
            }
        }
    }
}

/// A message read from a relay event takes its thread root from an `e` tag
/// marked `root` and its reply target from an `e` tag marked `reply` (never
/// the other way round), its channel from an `h` tag, and has no root,
/// reply target or channel when no such tag is there. Its id, author,
/// content, time and kind are the event's.
pub proof fn law_message_references(m: Message, v: JsonValue)
    requires
        message_json_ok(v),
        message_from_json(m, v),
    ensures
        ({
            let tags = array_member(v, "tags"@)->Some_0;
            &&& m.thread_root matches Some(r) ==> exists|i: int|
                0 <= i < tags.len() && str_at(tags[i], 0) == Some("e"@) && str_at(tags[i], 3) == Some(
                    "root"@,
                ) && #[trigger] str_at(tags[i], 1) == Some(r@)
            &&& m.reply_to matches Some(r) ==> exists|i: int|
                0 <= i < tags.len() && str_at(tags[i], 0) == Some("e"@) && str_at(tags[i], 3) == Some(
                    "reply"@,
                ) && #[trigger] str_at(tags[i], 1) == Some(r@)
            &&& m.channel_id@.len() > 0 ==> exists|i: int|
                0 <= i < tags.len() && str_at(tags[i], 0) == Some("h"@) && #[trigger] str_at(tags[i], 1) == Some(
                    m.channel_id@,
                )
            &&& (forall|i: int| 0 <= i < tags.len() ==> str_at(#[trigger] tags[i], 3) != Some("root"@))
                ==> m.thread_root is None
            &&& (forall|i: int| 0 <= i < tags.len() ==> str_at(#[trigger] tags[i], 3) != Some("reply"@))
                ==> m.reply_to is None
            &&& (forall|i: int| 0 <= i < tags.len() ==> str_at(#[trigger] tags[i], 0) != Some("h"@))
                ==> m.channel_id@.len() == 0
        }),
        str_member(v, "id"@) == Some(m.event_id@),
        str_member(v, "pubkey"@) == Some(m.author_pubkey@),
        str_member(v, "content"@) == Some(m.content@),
        i64_member(v, "created_at"@) == Some(m.created_at),
{
    let tags = array_member(v, "tags"@)->Some_0;
    reveal_strlit("");
    lemma_first_marked(tags, "root"@);
    lemma_first_marked(tags, "reply"@);
    lemma_first_h(tags);
    if m.thread_root is Some {
        let t = first_marked_e_tag(tags, "root"@)->Some_0;
        let i = choose|i: int| 0 <= i < tags.len() && tags[i] == t && #[trigger] is_marked_e_tag(tags[i], "root"@);
        assert(str_at(tags[i], 1) == Some(m.thread_root->Some_0@));
    }
    if m.reply_to is Some {
        let t = first_marked_e_tag(tags, "reply"@)->Some_0;
        let i = choose|i: int| 0 <= i < tags.len() && tags[i] == t && #[trigger] is_marked_e_tag(tags[i], "reply"@);
        assert(str_at(tags[i], 1) == Some(m.reply_to->Some_0@));
    }
    if m.channel_id@.len() > 0 {
        let t = first_h_tag(tags)->Some_0;
        let i = choose|i: int| 0 <= i < tags.len() && tags[i] == t && #[trigger] is_h_tag(tags[i]);
        assert(str_at(tags[i], 1) == Some(m.channel_id@));
    }
    if forall|i: int| 0 <= i < tags.len() ==> str_at(#[trigger] tags[i], 3) != Some("root"@) {
        assert forall|i: int| 0 <= i < tags.len() implies !#[trigger] is_marked_e_tag(tags[i], "root"@) by {
            assert(str_at(tags[i], 3) != Some("root"@));
        }
    }
    if forall|i: int| 0 <= i < tags.len() ==> str_at(#[trigger] tags[i], 3) != Some("reply"@) {
        assert forall|i: int| 0 <= i < tags.len() implies !#[trigger] is_marked_e_tag(tags[i], "reply"@) by {
            assert(str_at(tags[i], 3) != Some("reply"@));
        }
    }
    if forall|i: int| 0 <= i < tags.len() ==> str_at(#[trigger] tags[i], 0) != Some("h"@) {
        assert forall|i: int| 0 <= i < tags.len() implies !#[trigger] is_h_tag(tags[i]) by {
            assert(str_at(tags[i], 0) != Some("h"@));
        }
    }
}

/// Converts a relay event JSON object into a [`Message`]: the channel comes
/// from its `h` tag, the reply and thread root from its marked `e` tags and
/// the attachments from its `imeta` tags.
pub fn json_to_message(v: &JsonValue) -> (r: Option<Message>)
    ensures
        r is Some <==> message_json_ok(*v),
        r matches Some(m) ==> message_from_json(m, *v),
{
    let tags = match v.array_member("tags") {
        Some(t) => t,
        None => return None,
    };
    let channel_id = match second_slot(find_h_tag(tags)) {
        Some(s) => s,
        None => "".to_string(),
    };
    let reply_to = second_slot(find_marked_e_tag(tags, "reply"));
    let thread_root = second_slot(find_marked_e_tag(tags, "root"));
    let media = media_from_tags(tags);
    let event_id = match v.str_member("id") {
        Some(s) => s,
        None => return None,
    };
    let author_pubkey = match v.str_member("pubkey") {
        Some(s) => s,
        None => return None,
    };
    let content = match v.str_member("content") {
        Some(s) => s,
        None => return None,
    };
    let created_at = match v.i64_member("created_at") {
        Some(t) => t,
        None => return None,
    };
    let kind: u32 = match v.u64_member("kind") {
        Some(k) => #[verifier::truncate] (k as u32),
        None => return None,
    };
    Some(Message {
        event_id,
        channel_id,
        author_pubkey,
        content,
        created_at,
        kind,
        reply_to,
        thread_root,
        reactions: Vec::new(),
        media,
        reply_count: 0,
        author_profile: None,
    })
}

} // verus!
