// The decisions of the client facade: what an operation needs before it can
// run (a token, keys, well-formed ids), how a reply thread is referenced,
// what a sent message looks like, which token a new client starts with,
// and how a channel subscription is opened.

use vstd::prelude::*;

use crate::auth::token::CachedToken;
use crate::error::SproutError;
use crate::json::{json_get, json_str, opt_view, JsonValue};
use crate::text::{push_str, has_prefix};
use crate::types::{
    Channel, MediaAttachment, ConnectionState, Message, PresenceStatus, SendMessageParams, UserProfile,
};
use crate::ws::registry::SubscriptionRegistry;
use crate::ws::subscription::{channel_message_filter, generate_sub_id, is_lower_hex, Filter};

verus! {

/// Receives what the relay pushes: implemented by the native shells.
pub trait SproutEventListener {
    /// A new message arrived in a subscribed channel.
    fn on_message(&self, message: Message);

    /// A message was edited.
    fn on_message_edited(&self, channel_id: String, event_id: String, new_content: String);

    /// A message was deleted.
    fn on_message_deleted(&self, channel_id: String, event_id: String);

    /// A reaction was added to a message.
    fn on_reaction(&self, channel_id: String, event_id: String, emoji: String, author_pubkey: String);

    /// A user started or stopped typing in a channel.
    fn on_typing(&self, channel_id: String, pubkey: String, is_typing: bool);

    /// A user's presence changed.
    fn on_presence_changed(&self, pubkey: String, status: PresenceStatus);

    /// The connection state changed.
    fn on_connection_state_changed(&self, state: ConnectionState);

    /// A channel's metadata was updated.
    fn on_channel_updated(&self, channel: Channel);

    /// The user was added to a channel.
    fn on_added_to_channel(&self, channel_id: String);

    /// The user was removed from a channel.
    fn on_removed_from_channel(&self, channel_id: String);
}

/// The API token an operation runs with; without one, authentication is
/// required.
pub fn require_token(token: Option<String>) -> (r: Result<String, SproutError>)
    ensures
        match token {
            Some(t) => r matches Ok(s) && s@ == t@,
            None => r matches Err(SproutError::AuthRequired),
        },
{
    match token {
        Some(t) => Ok(t),
        None => Err(SproutError::AuthRequired),
    }
}

/// The keys an operation signs with; without them, authentication is
/// required.
pub fn require_keys<K>(keys: Option<K>) -> (r: Result<K, SproutError>)
    ensures
        match keys {
            Some(k) => r == Ok::<K, SproutError>(k),
            None => r matches Err(SproutError::AuthRequired),
        },
{
    match keys {
        Some(k) => Ok(k),
        None => Err(SproutError::AuthRequired),
    }
}

/// The token a new client starts with: the configured one, else the cached
/// one while it is valid.
pub open spec fn starting_token_spec(configured: Option<Seq<char>>, cached: CachedToken) -> Option<Seq<char>> {
    match configured {
        Some(t) => Some(t),
        None => match cached {
            CachedToken::Valid(t) => Some(t@),
            _ => None,
        },
    }
}

/// The token a new client starts with.
pub fn starting_token(configured: Option<String>, cached: CachedToken) -> (r: Option<String>)
    ensures
        opt_view(r) == starting_token_spec(opt_view(configured), cached),
{
    match configured {
        Some(t) => Some(t),
        None => match cached {
            CachedToken::Valid(t) => Some(t),
            _ => None,
        },
    }
}

/// What `uuid::Uuid::parse_str` makes of a text: the 16 bytes of the UUID,
/// or the text of the error it reports.
pub uninterp spec fn uuid_parse(text: Seq<char>) -> Result<Seq<u8>, Seq<char>>;

/// What `nostr::event::EventId::from_hex` makes of a text: the 32 bytes of
/// the id, or the text of the error it reports.
pub uninterp spec fn event_id_from_hex(text: Seq<char>) -> Result<Seq<u8>, Seq<char>>;

/// The views of a byte-or-message result.
pub open spec fn bytes_outcome(r: Result<Vec<u8>, String>) -> Result<Seq<u8>, Seq<char>> {
    match r {
        Ok(b) => Ok(b@),
        Err(e) => Err(e@),
    }
}

/// Calls `uuid::Uuid::parse_str` and takes the UUID's bytes, or the error's
/// text. Claims: the outcome is `uuid_parse` of the text; a UUID has 16
/// bytes.
#[verifier::external_body]
fn uuid_bytes(text: &str) -> (r: Result<Vec<u8>, String>)
    ensures
        bytes_outcome(r) == uuid_parse(text@),
        r matches Ok(b) ==> b@.len() == 16,
{
    match uuid::Uuid::parse_str(text) {
        Ok(u) => Ok(u.as_bytes().to_vec()),
        Err(e) => Err(e.to_string()),
    }
}

/// Calls `nostr::event::EventId::from_hex` and takes the id's bytes, or the
/// error's text. Claims: the outcome is `event_id_from_hex` of the text; an
/// event id has 32 bytes.
#[verifier::external_body]
fn event_id_bytes(text: &str) -> (r: Result<Vec<u8>, String>)
    ensures
        bytes_outcome(r) == event_id_from_hex(text@),
        r matches Ok(b) ==> b@.len() == 32,
{
    match nostr::event::EventId::from_hex(text) {
        Ok(id) => Ok(id.as_bytes().to_vec()),
        Err(e) => Err(e.to_string()),
    }
}

/// `r` is what checking `text` with `parse` gives: its bytes, or a
/// validation error `<what>: <reason>`.
pub open spec fn checked_as(
    r: Result<Vec<u8>, SproutError>,
    parsed: Result<Seq<u8>, Seq<char>>,
    what: Seq<char>,
) -> bool {
    match parsed {
        Ok(b) => r matches Ok(v) && v@ == b,
        Err(e) => r matches Err(SproutError::ValidationError { message }) && message@ == what + ": "@ + e,
    }
}

/// A validation error `<what>: <reason>`.
fn invalid(what: &str, reason: &str) -> (e: SproutError)
    ensures
        e matches SproutError::ValidationError { message } && message@ == what@ + ": "@ + reason@,
{
    let mut message = what.to_string();
    push_str(&mut message, ": ");
    push_str(&mut message, reason);
    SproutError::ValidationError { message }
}

/// The bytes of a channel UUID; a malformed one is a validation error.
pub fn parse_uuid(text: &str) -> (r: Result<Vec<u8>, SproutError>)
    ensures
        checked_as(r, uuid_parse(text@), "invalid UUID"@),
{
    match uuid_bytes(text) {
        Ok(b) => Ok(b),
        Err(e) => Err(invalid("invalid UUID", e.as_str())),
    }
}

/// The bytes of a hex event id; a malformed one is a validation error.
pub fn parse_event_id(text: &str) -> (r: Result<Vec<u8>, SproutError>)
    ensures
        checked_as(r, event_id_from_hex(text@), "invalid event ID"@),
{
    match event_id_bytes(text) {
        Ok(b) => Ok(b),
        Err(e) => Err(invalid("invalid event ID", e.as_str())),
    }
}

/// Where a reply sits in a thread: the thread's root event and the event it
/// answers.
#[derive(Debug, Clone)]
pub struct ThreadRef {
    /// Bytes of the thread's root event id.
    pub root_event_id: Vec<u8>,
    /// Bytes of the id of the event replied to.
    pub parent_event_id: Vec<u8>,
}

/// `r` is the thread reference of a message with thread root `root` and
/// reply target `parent`: none without a root; the root as both root and
/// parent without a target; otherwise both. Ids are read with
/// `event_id_from_hex`, the root first, and the first malformed one is a
/// validation error.
pub open spec fn thread_ref_for(
    r: Result<Option<ThreadRef>, SproutError>,
    root: Option<Seq<char>>,
    parent: Option<Seq<char>>,
) -> bool {
    match root {
        None => r matches Ok(None),
        Some(rt) => match event_id_from_hex(rt) {
            Err(e) => r matches Err(SproutError::ValidationError { message }) && message@ == "invalid event ID"@
                + ": "@ + e,
            Ok(rb) => {
                let target = match parent {
                    Some(p) => p,
                    None => rt,
                };
                match event_id_from_hex(target) {
                    Err(e) => r matches Err(SproutError::ValidationError { message }) && message@
                        == "invalid event ID"@ + ": "@ + e,
                    Ok(pb) => r matches Ok(Some(t)) && t.root_event_id@ == rb && t.parent_event_id@ == pb,
                }
            },
        },
    }
}

/// A thread reference is made exactly when a root id is given and every id
/// given reads as an event id. Its root is the bytes of the given root id,
/// whatever reply target is given, and its parent is the bytes of the given
/// target, or the root itself when no target is given; without a root there
/// is no thread reference.
pub proof fn law_thread_ref(
    r1: Result<Option<ThreadRef>, SproutError>,
    r2: Result<Option<ThreadRef>, SproutError>,
    root: Option<Seq<char>>,
    p1: Option<Seq<char>>,
    p2: Option<Seq<char>>,
)
    requires
        thread_ref_for(r1, root, p1),
        thread_ref_for(r2, root, p2),
    ensures
        root is None ==> r1 matches Ok(None),
        root matches Some(rt) ==> ((r1 is Ok) <==> (event_id_from_hex(rt) is Ok && (p1 matches Some(p)
            ==> event_id_from_hex(p) is Ok))),
        root is Some ==> (r1 is Ok ==> r1 matches Ok(Some(_))),
        r1 matches Ok(Some(t)) ==> (root matches Some(rt) && event_id_from_hex(rt) == Ok::<Seq<u8>, Seq<char>>(
            t.root_event_id@,
        )),
        r1 matches Ok(Some(t)) ==> match p1 {
            Some(p) => event_id_from_hex(p) == Ok::<Seq<u8>, Seq<char>>(t.parent_event_id@),
            None => t.parent_event_id@ == t.root_event_id@,
        },
        r1 matches Ok(Some(t1)) ==> (r2 matches Ok(Some(t2)) ==> t1.root_event_id@ == t2.root_event_id@),
{
}

/// The thread reference of a message being sent.
pub fn thread_ref(root: Option<&str>, parent: Option<&str>) -> (r: Result<Option<ThreadRef>, SproutError>)
    ensures
        thread_ref_for(r, crate::auth::nip42::opt_str_view(root), crate::auth::nip42::opt_str_view(parent)),
{
    match root {
        None => Ok(None),
        Some(rt) => {
            let root_event_id = match parse_event_id(rt) {
                Ok(b) => b,
                Err(e) => return Err(e),
            };
            let target = match parent {
                Some(p) => p,
                None => rt,
            };
            let parent_event_id = match parse_event_id(target) {
                Ok(b) => b,
                Err(e) => return Err(e),
            };
            Ok(Some(ThreadRef { root_event_id, parent_event_id }))
        },
    }
}

/// The kind of a channel message.
pub const MESSAGE_KIND: u32 = 9;

/// MIME type of an attachment that is known only by its URL.
pub open spec fn unknown_mime() -> Seq<char> {
    "application/octet-stream"@
}

/// `media` holds one attachment per URL of `urls`, in order: the URL, of
/// unknown type, with nothing else known of it.
pub open spec fn attachments_of_urls(media: Seq<MediaAttachment>, urls: Seq<String>) -> bool {
    &&& media.len() == urls.len()
    &&& forall|i: int|
        0 <= i < urls.len() ==> {
            &&& (#[trigger] media[i]).url@ == urls[i]@
            &&& media[i].mime_type@ == unknown_mime()
            &&& media[i].size_bytes is None
            &&& media[i].dimensions is None
            &&& media[i].blurhash is None
            &&& media[i].thumbnail_url is None
        }
}

/// The attachments of a message being sent, one per uploaded media URL.
pub fn attachments_from_urls(urls: &Vec<String>) -> (r: Vec<MediaAttachment>)
    ensures
        attachments_of_urls(r@, urls@),
{
    let mut out: Vec<MediaAttachment> = Vec::new();
    let mut i: usize = 0;
    while i < urls.len()
        invariant
            i <= urls@.len(),
            attachments_of_urls(out@, urls@.take(i as int)),
        decreases urls@.len() - i,
    {
        out.push(
            MediaAttachment {
                url: urls[i].clone(),
                mime_type: "application/octet-stream".to_string(),
                size_bytes: None,
                dimensions: None,
                blurhash: None,
                thumbnail_url: None,
            },
        );
        i = i + 1;
    }
    assert(urls@.take(urls@.len() as int) =~= urls@);
    out
}

/// `m` is the message reported back after sending `params`: the event id
/// the relay answered with (the signed event's id when it named none), the
/// signer's key, the signing time, the parameters' content, channel, reply
/// target and thread root, and one attachment per attached media URL.
pub open spec fn sent_message_is(
    m: Message,
    params: SendMessageParams,
    response: JsonValue,
    signed_id: Seq<char>,
    author_pubkey: Seq<char>,
    created_at: u64,
) -> bool {
    &&& m.event_id@ == match json_get(response, "event_id"@) {
        Some(v) => match json_str(v) {
            Some(s) => s,
            None => signed_id,
        },
        None => signed_id,
    }
    &&& m.channel_id@ == params.channel_id@
    &&& m.author_pubkey@ == author_pubkey
    &&& m.content@ == params.content@
    &&& m.created_at == created_at as i64
    &&& m.kind == MESSAGE_KIND
    &&& opt_view(m.reply_to) == opt_view(params.reply_to_event_id)
    &&& opt_view(m.thread_root) == opt_view(params.thread_root_event_id)
    &&& m.reactions@.len() == 0
    &&& attachments_of_urls(m.media@, params.media_attachments@)
    &&& m.reply_count == 0
    &&& m.author_profile is None
}

/// The message reported after sending is a kind 9 message in the channel
/// the parameters name, with their content, replying to their reply target
/// and in their thread (neither swapped for the other), carrying one
/// attachment per attached URL with that URL, by the signer, and with the
/// relay's event id when the relay names one as a string and the signed
/// event's id otherwise.
pub proof fn law_sent_message(
    m: Message,
    params: SendMessageParams,
    response: JsonValue,
    signed_id: Seq<char>,
    author_pubkey: Seq<char>,
    created_at: u64,
)
    requires
        sent_message_is(m, params, response, signed_id, author_pubkey, created_at),
    ensures
        m.kind == 9,
        m.channel_id@ == params.channel_id@,
        m.content@ == params.content@,
        m.author_pubkey@ == author_pubkey,
        opt_view(m.reply_to) == opt_view(params.reply_to_event_id),
        opt_view(m.thread_root) == opt_view(params.thread_root_event_id),
        m.media@.len() == params.media_attachments@.len(),
        forall|i: int| 0 <= i < m.media@.len() ==> (#[trigger] m.media@[i]).url@ == params.media_attachments@[i]@,
        (json_get(response, "event_id"@) matches Some(v) && json_str(v) is Some) ==> Some(m.event_id@)
            == json_str(json_get(response, "event_id"@)->Some_0),
        (json_get(response, "event_id"@) matches Some(v) && json_str(v) is Some) || m.event_id@ == signed_id,
{
}

/// The message reported back after sending `params`, from the relay's answer
/// and the signed event's id, author key and creation time.
pub fn sent_message(
    params: SendMessageParams,
    response: &JsonValue,
    signed_id: String,
    author_pubkey: String,
    created_at: u64,
) -> (m: Message)
    ensures
        sent_message_is(m, params, *response, signed_id@, author_pubkey@, created_at),
{
    let event_id = match response.get("event_id") {
        Some(v) => match v.as_str() {
            Some(s) => s.to_string(),
            None => signed_id,
        },
        None => signed_id,
    };
    let media = attachments_from_urls(&params.media_attachments);
    Message {
        event_id,
        channel_id: params.channel_id,
        author_pubkey,
        content: params.content,
        created_at: created_at as i64,
        kind: MESSAGE_KIND,
        reply_to: params.reply_to_event_id,
        thread_root: params.thread_root_event_id,
        reactions: Vec::new(),
        media,
        reply_count: 0,
        author_profile: None,
    }
}

/// The prefix of channel subscription ids.
pub const CHANNEL_SUB_PREFIX: &'static str = "ch";

/// Opens a subscription to a channel's events under a fresh id (`ch-` and
/// 32 random lowercase hex digits) and returns the id.
pub fn subscribe_channel(registry: &mut SubscriptionRegistry, channel_id: &str) -> (id: String)
    ensures
        id@.len() == 35,
        has_prefix(id@, "ch-"@),
        forall|i: int| 3 <= i < 35 ==> is_lower_hex(#[trigger] id@[i]),
        final(registry).subs().dom() == old(registry).subs().dom().insert(id@),
        forall|k: Seq<char>| k != id@ ==> final(registry).subs().dom().contains(k) ==> #[trigger] final(registry).subs()[k]
            == old(registry).subs()[k],
        final(registry).subs()[id@].len() == 1,
        final(registry).subs()[id@][0].kind_set() == channel_message_filter_kinds(),
        final(registry).subs()[id@][0].channel_set() == seq![channel_id@],
{
    let id = generate_sub_id(CHANNEL_SUB_PREFIX);
    proof {
        reveal_strlit("ch");
        reveal_strlit("-");
        reveal_strlit("ch-");
        let u = choose|u: Seq<char>|
            u.len() == 32 && (forall|i: int| 0 <= i < 32 ==> is_lower_hex(#[trigger] u[i])) && id@ == "ch"@
                + "-"@ + u;
        assert(id@.take(3) =~= "ch-"@);
        assert forall|i: int| 3 <= i < 35 implies is_lower_hex(#[trigger] id@[i]) by {
            assert(id@[i] == u[i - 3]);
        }
    }
    let filter = channel_message_filter(channel_id);
    let filters: Vec<Filter> = vec![filter];
    let ghost key = id@;
    let ghost f = filters@;
    registry.subscribe(id.clone(), filters);
    proof {
        assert(final(registry).subs() == old(registry).subs().insert(key, f));
        assert(final(registry).subs().dom() =~= old(registry).subs().dom().insert(key));
    }
    id
}

/// The kinds a channel subscription asks for, ascending: deletions,
/// reactions, messages, edits and system messages.
pub open spec fn channel_message_filter_kinds() -> Seq<u16> {
    seq![5u16, 7u16, 9u16, 40003u16, 40099u16]
}

/// A channel subscription asks for exactly deletions (5), reactions (7),
/// messages (9), edits (40003) and system messages (40099), each once, in
/// ascending order.
pub proof fn law_channel_filter_kinds(k: u16)
    ensures
        channel_message_filter_kinds().contains(k) <==> (k == 5 || k == 7 || k == 9 || k == 40003 || k == 40099),
        crate::ws::subscription::ascending(channel_message_filter_kinds()),
{
    let ks = channel_message_filter_kinds();
    if k == 5 || k == 7 || k == 9 || k == 40003 || k == 40099 {
        if k == 5 { assert(ks[0] == k); }
        if k == 7 { assert(ks[1] == k); }
        if k == 9 { assert(ks[2] == k); }
        if k == 40003 { assert(ks[3] == k); }
        if k == 40099 { assert(ks[4] == k); }
    }
}

} // verus!
