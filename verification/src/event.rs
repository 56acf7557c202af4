// Nostr events: reading them from relay JSON, writing them as JSON, and
// signing new ones with the client's key.

use vstd::prelude::*;

use nostr::event::{EventBuilder, FinalizeEvent, Kind, Tags};
use nostr::key::{Keys, SecretKey};

use crate::auth::keys::{nostr_public_key_hex, nostr_secret_key_valid, KeyManager};
use crate::json::{
    json_array, json_get, json_str, json_u64, lemma_lookup_at, opt_view, str_member, u64_member, JsonNumber,
    JsonValue,
};

verus! {

/// A Nostr event (NIP-01).
#[derive(Debug, Clone)]
pub struct NostrEvent {
    /// Lowercase hex event id.
    pub id: String,
    /// Lowercase hex public key of the author.
    pub pubkey: String,
    /// Unix time of creation (seconds).
    pub created_at: u64,
    /// Event kind.
    pub kind: u16,
    /// Tags; each is a non-empty list of strings.
    pub tags: Vec<Vec<String>>,
    /// Content.
    pub content: String,
    /// Lowercase hex Schnorr signature.
    pub sig: String,
}

/// The texts of a tag.
pub open spec fn tag_view(t: Vec<String>) -> Seq<Seq<char>> {
    t@.map_values(|s: String| s@)
}

/// The texts of a list of tags.
pub open spec fn tags_view(ts: Seq<Vec<String>>) -> Seq<Seq<Seq<char>>> {
    ts.map_values(|t: Vec<String>| tag_view(t))
}

/// What nostr makes of the `id` of an event it reads (hex, `note` bech32 or
/// `nostr:` URI): the id in lowercase hex, or `None` when it rejects it.
pub uninterp spec fn nostr_event_id(text: Seq<char>) -> Option<Seq<char>>;

/// What nostr makes of the `pubkey` of an event it reads (hex, `npub` or
/// `nprofile` bech32, or `nostr:` URI): the key in lowercase hex.
pub uninterp spec fn nostr_public_key(text: Seq<char>) -> Option<Seq<char>>;

/// What nostr makes of the `sig` of an event it reads (64 bytes in hex): the
/// signature in lowercase hex.
pub uninterp spec fn nostr_signature(text: Seq<char>) -> Option<Seq<char>>;

/// Calls `nostr::event::EventId::parse` and `to_hex`.
#[verifier::external_body]
fn read_event_id(text: &str) -> (r: Option<String>)
    ensures
        opt_view(r) == nostr_event_id(text@),
{
    match nostr::event::EventId::parse(text) {
        Ok(id) => Some(id.to_hex()),
        Err(_) => None,
    }
}

/// Calls `nostr::key::PublicKey::parse` and `to_hex`.
#[verifier::external_body]
fn read_public_key(text: &str) -> (r: Option<String>)
    ensures
        opt_view(r) == nostr_public_key(text@),
{
    match nostr::key::PublicKey::parse(text) {
        Ok(pk) => Some(pk.to_hex()),
        Err(_) => None,
    }
}

/// Calls `nostr::event::Signature::from_hex` and formats the signature.
#[verifier::external_body]
fn read_signature(text: &str) -> (r: Option<String>)
    ensures
        opt_view(r) == nostr_signature(text@),
{
    match nostr::event::Signature::from_hex(text) {
        Ok(sig) => Some(sig.to_string()),
        Err(_) => None,
    }
}

/// All elements are strings.
pub open spec fn all_strings(items: Seq<JsonValue>) -> bool {
    forall|i: int| 0 <= i < items.len() ==> (#[trigger] json_str(items[i])) is Some
}

/// A tag as nostr reads it: a non-empty array of strings.
pub open spec fn json_tag(t: JsonValue) -> Option<Seq<Seq<char>>> {
    match json_array(t) {
        Some(items) => if items.len() > 0 && all_strings(items) {
            Some(items.map_values(|x: JsonValue| json_str(x)->Some_0))
        } else {
            None
        },
        None => None,
    }
}

/// A tag list as nostr reads it: an array of tags.
pub open spec fn json_tags(v: JsonValue) -> Option<Seq<Seq<Seq<char>>>> {
    match json_array(v) {
        Some(items) => if forall|i: int| 0 <= i < items.len() ==> (#[trigger] json_tag(items[i])) is Some {
            Some(items.map_values(|x: JsonValue| json_tag(x)->Some_0))
        } else {
            None
        },
        None => None,
    }
}

/// The id, key and signature that nostr reads from an event object.
pub open spec fn read_id(v: JsonValue) -> Option<Seq<char>> {
    match str_member(v, "id"@) {
        Some(s) => nostr_event_id(s),
        None => None,
    }
}

/// See [`read_id`].
pub open spec fn read_pubkey(v: JsonValue) -> Option<Seq<char>> {
    match str_member(v, "pubkey"@) {
        Some(s) => nostr_public_key(s),
        None => None,
    }
}

/// See [`read_id`].
pub open spec fn read_sig(v: JsonValue) -> Option<Seq<char>> {
    match str_member(v, "sig"@) {
        Some(s) => nostr_signature(s),
        None => None,
    }
}

/// The tags that nostr reads from an event object.
pub open spec fn read_tags(v: JsonValue) -> Option<Seq<Seq<Seq<char>>>> {
    match json_get(v, "tags"@) {
        Some(t) => json_tags(t),
        None => None,
    }
}

/// nostr reads `v` as an event: every NIP-01 member is present and well
/// formed; other members are ignored.
pub open spec fn event_json_ok(v: JsonValue) -> bool {
    &&& read_id(v) is Some
    &&& read_pubkey(v) is Some
    &&& u64_member(v, "created_at"@) is Some
    &&& (u64_member(v, "kind"@) matches Some(k) && k <= 0xffff)
    &&& read_tags(v) is Some
    &&& str_member(v, "content"@) is Some
    &&& read_sig(v) is Some
}

/// `e` is the event that nostr reads from `v`.
pub open spec fn event_from_json(e: NostrEvent, v: JsonValue) -> bool {
    &&& read_id(v) == Some(e.id@)
    &&& read_pubkey(v) == Some(e.pubkey@)
    &&& u64_member(v, "created_at"@) == Some(e.created_at)
    &&& u64_member(v, "kind"@) == Some(e.kind as u64)
    &&& read_tags(v) == Some(tags_view(e.tags@))
    &&& str_member(v, "content"@) == Some(e.content@)
    &&& read_sig(v) == Some(e.sig@)
}

/// The strings of a tag, when it is a non-empty array of strings.
fn tag_from_json(t: &JsonValue) -> (r: Option<Vec<String>>)
    ensures
        r is Some <==> json_tag(*t) is Some,
        r matches Some(v) ==> json_tag(*t) == Some(tag_view(v)),
{
    let items = match t.as_array() {
        Some(a) => a,
        None => return None,
    };
    if items.len() == 0 {
        return None;
    }
    let mut out: Vec<String> = Vec::new();
    let mut i: usize = 0;
    while i < items.len()
        invariant
            json_array(*t) == Some(items@),
            items@.len() > 0,
            i <= items@.len(),
            out@.len() == i,
            forall|k: int| 0 <= k < i ==> #[trigger] json_str(items@[k]) == Some(out@[k]@),
        decreases items@.len() - i,
    {
        match items[i].as_str() {
            Some(s) => out.push(s.to_string()),
            None => {
                assert(json_str(items@[i as int]) is None);
                return None;
            },
        }
        i = i + 1;
    }
    assert(all_strings(items@));
    assert(tag_view(out) =~= items@.map_values(|x: JsonValue| json_str(x)->Some_0));
    Some(out)
}

/// The tags of a tag list, when it is an array of tags.
fn tags_from_json(v: &JsonValue) -> (r: Option<Vec<Vec<String>>>)
    ensures
        r is Some <==> json_tags(*v) is Some,
        r matches Some(ts) ==> json_tags(*v) == Some(tags_view(ts@)),
{
    let items = match v.as_array() {
        Some(a) => a,
        None => return None,
    };
    let mut out: Vec<Vec<String>> = Vec::new();
    let mut i: usize = 0;
    while i < items.len()
        invariant
            json_array(*v) == Some(items@),
            i <= items@.len(),
            out@.len() == i,
            forall|k: int| 0 <= k < i ==> #[trigger] json_tag(items@[k]) == Some(tag_view(out@[k])),
        decreases items@.len() - i,
    {
        match tag_from_json(&items[i]) {
            Some(t) => out.push(t),
            None => return None,
        }
        i = i + 1;
    }
    assert(tags_view(out@) =~= items@.map_values(|x: JsonValue| json_tag(x)->Some_0));
    Some(out)
}

/// Reads an event object the way nostr deserializes an event: `None` when a
/// NIP-01 member is missing or malformed.
pub fn event_from_json_value(v: &JsonValue) -> (r: Option<NostrEvent>)
    ensures
        r is Some <==> event_json_ok(*v),
        r matches Some(e) ==> event_from_json(e, *v),
{
    let id = match v.get("id") {
        Some(m) => match m.as_str() {
            Some(s) => match read_event_id(s) {
                Some(h) => h,
                None => return None,
            },
            None => return None,
        },
        None => return None,
    };
    let pubkey = match v.get("pubkey") {
        Some(m) => match m.as_str() {
            Some(s) => match read_public_key(s) {
                Some(h) => h,
                None => return None,
            },
            None => return None,
        },
        None => return None,
    };
    let created_at = match v.u64_member("created_at") {
        Some(t) => t,
        None => return None,
    };
    let kind: u16 = match v.u64_member("kind") {
        Some(k) => if k <= 0xffff {
            k as u16
        } else {
            return None;
        },
        None => return None,
    };
    let tags = match v.get("tags") {
        Some(t) => match tags_from_json(t) {
            Some(ts) => ts,
            None => return None,
        },
        None => return None,
    };
    let content = match v.str_member("content") {
        Some(c) => c,
        None => return None,
    };
    let sig = match v.get("sig") {
        Some(m) => match m.as_str() {
            Some(s) => match read_signature(s) {
                Some(h) => h,
                None => return None,
            },
            None => return None,
        },
        None => return None,
    };
    Some(NostrEvent { id, pubkey, created_at, kind, tags, content, sig })
}

/// A string value.
fn json_text(s: &String) -> (r: JsonValue)
    ensures
        json_str(r) == Some(s@),
{
    JsonValue::Str(s.clone())
}

/// The texts of an array value whose elements are all strings.
pub open spec fn string_array(v: JsonValue) -> Option<Seq<Seq<char>>> {
    match json_array(v) {
        Some(items) => if all_strings(items) {
            Some(items.map_values(|x: JsonValue| json_str(x)->Some_0))
        } else {
            None
        },
        None => None,
    }
}

/// A tag of two strings.
pub(crate) fn pair_tag(name: &str, value: &str) -> (r: Vec<String>)
    ensures
        r@.len() == 2,
        r@[0]@ == name@,
        r@[1]@ == value@,
{
    vec![name.to_string(), value.to_string()]
}

/// The JSON array of a tag.
fn tag_to_json(t: &Vec<String>) -> (r: JsonValue)
    ensures
        string_array(r) == Some(tag_view(*t)),
        json_tag(r) == (if t@.len() > 0 { Some(tag_view(*t)) } else { None::<Seq<Seq<char>>> }),
{
    let mut items: Vec<JsonValue> = Vec::new();
    let mut i: usize = 0;
    while i < t.len()
        invariant
            i <= t@.len(),
            items@.len() == i,
            forall|k: int| 0 <= k < i ==> json_str(#[trigger] items@[k]) == Some(t@[k]@),
        decreases t@.len() - i,
    {
        items.push(json_text(&t[i]));
        i = i + 1;
    }
    let r = JsonValue::Array(items);
    assert(json_array(r) == Some(items@));
    assert(all_strings(items@));
    assert(items@.map_values(|x: JsonValue| json_str(x)->Some_0) =~= tag_view(*t));
    r
}

/// All tags are non-empty.
pub open spec fn tags_non_empty(ts: Seq<Vec<String>>) -> bool {
    forall|i: int| 0 <= i < ts.len() ==> (#[trigger] ts[i])@.len() > 0
}

/// A tag list whose texts are all non-empty tags has no empty tag.
pub(crate) proof fn lemma_filled_tags(ts: Seq<Vec<String>>)
    requires
        forall|i: int| 0 <= i < tags_view(ts).len() ==> (#[trigger] tags_view(ts)[i]).len() > 0,
    ensures
        tags_non_empty(ts),
{
    assert forall|i: int| 0 <= i < ts.len() implies (#[trigger] ts[i])@.len() > 0 by {
        assert(tags_view(ts)[i] == tag_view(ts[i]));
        assert(tag_view(ts[i]).len() == ts[i]@.len());
    }
}

/// `v` is an array holding, for each tag, the array of its strings.
pub open spec fn tags_written(v: JsonValue, ts: Seq<Vec<String>>) -> bool {
    json_array(v) matches Some(items) && items.len() == ts.len() && forall|k: int|
        0 <= k < ts.len() ==> string_array(#[trigger] items[k]) == Some(tag_view(ts[k]))
}

/// The JSON array of a tag list.
fn tags_to_json(ts: &Vec<Vec<String>>) -> (r: JsonValue)
    ensures
        tags_written(r, ts@),
        tags_non_empty(ts@) ==> json_tags(r) == Some(tags_view(ts@)),
{
    let mut items: Vec<JsonValue> = Vec::new();
    let mut i: usize = 0;
    while i < ts.len()
        invariant
            i <= ts@.len(),
            items@.len() == i,
            forall|k: int| 0 <= k < i ==> string_array(#[trigger] items@[k]) == Some(tag_view(ts@[k])),
            forall|k: int| 0 <= k < i ==> json_tag(#[trigger] items@[k]) == (if ts@[k]@.len() > 0 {
                Some(tag_view(ts@[k]))
            } else {
                None::<Seq<Seq<char>>>
            }),
        decreases ts@.len() - i,
    {
        items.push(tag_to_json(&ts[i]));
        i = i + 1;
    }
    let r = JsonValue::Array(items);
    proof {
        assert(json_array(r) == Some(items@));
        if tags_non_empty(ts@) {
            assert forall|k: int| 0 <= k < items@.len() implies (#[trigger] json_tag(items@[k])) is Some by {
                assert(ts@[k]@.len() > 0);
            }
            assert(items@.map_values(|x: JsonValue| json_tag(x)->Some_0) =~= tags_view(ts@));
        }
    }
    r
}

/// `v` is the NIP-01 JSON object of `e`: each member holds the field of the
/// same name.
pub open spec fn event_written(v: JsonValue, e: NostrEvent) -> bool {
    &&& str_member(v, "id"@) == Some(e.id@)
    &&& str_member(v, "pubkey"@) == Some(e.pubkey@)
    &&& u64_member(v, "created_at"@) == Some(e.created_at)
    &&& u64_member(v, "kind"@) == Some(e.kind as u64)
    &&& (json_get(v, "tags"@) matches Some(t) && tags_written(t, e.tags@) && (tags_non_empty(e.tags@)
        ==> json_tags(t) == Some(tags_view(e.tags@))))
    &&& str_member(v, "content"@) == Some(e.content@)
    &&& str_member(v, "sig"@) == Some(e.sig@)
}

/// The NIP-01 JSON object of an event.
pub fn event_to_json(e: &NostrEvent) -> (r: JsonValue)
    ensures
        event_written(r, *e),
{
    let fields: Vec<(String, JsonValue)> = vec![
        ("id".to_string(), json_text(&e.id)),
        ("pubkey".to_string(), json_text(&e.pubkey)),
        ("created_at".to_string(), JsonValue::Number(JsonNumber::PosInt(e.created_at))),
        ("kind".to_string(), JsonValue::Number(JsonNumber::PosInt(e.kind as u64))),
        ("tags".to_string(), tags_to_json(&e.tags)),
        ("content".to_string(), json_text(&e.content)),
        ("sig".to_string(), json_text(&e.sig)),
    ];
    proof {
        reveal_strlit("id");
        reveal_strlit("pubkey");
        reveal_strlit("created_at");
        reveal_strlit("kind");
        reveal_strlit("tags");
        reveal_strlit("content");
        reveal_strlit("sig");
        let f = fields@;
        assert(f[0].0@ == "id"@ && f[1].0@ == "pubkey"@ && f[2].0@ == "created_at"@ && f[3].0@
            == "kind"@ && f[4].0@ == "tags"@ && f[5].0@ == "content"@ && f[6].0@ == "sig"@);
        assert("kind"@ != "tags"@) by {
            assert("kind"@[0] != "tags"@[0]);
        }
        lemma_lookup_at(f, 0, "id"@);
        lemma_lookup_at(f, 1, "pubkey"@);
        lemma_lookup_at(f, 2, "created_at"@);
        lemma_lookup_at(f, 3, "kind"@);
        lemma_lookup_at(f, 4, "tags"@);
        lemma_lookup_at(f, 5, "content"@);
        lemma_lookup_at(f, 6, "sig"@);
    }
    JsonValue::Object(fields)
}

/// The NIP-01 id that nostr computes for an event: the hex SHA-256 of the
/// serialized `[0, pubkey, created_at, kind, tags, content]`.
pub uninterp spec fn nostr_event_id_of(
    pubkey: Seq<char>,
    created_at: u64,
    kind: u16,
    tags: Seq<Seq<Seq<char>>>,
    content: Seq<char>,
) -> Seq<char>;

/// nostr's verification of a Schnorr signature of an event id under a
/// public key.
pub uninterp spec fn nostr_sig_valid(id: Seq<char>, pubkey: Seq<char>, sig: Seq<char>) -> bool;

/// The JSON text that nostr writes for the event with these fields.
pub uninterp spec fn nostr_event_json(
    id: Seq<char>,
    pubkey: Seq<char>,
    created_at: u64,
    kind: u16,
    tags: Seq<Seq<Seq<char>>>,
    content: Seq<char>,
    sig: Seq<char>,
) -> Seq<char>;

/// `e` is an event as nostr signs it: its id is the NIP-01 id of its other
/// fields, its signature verifies for that id under its author key, and the
/// id, key and signature each read back through nostr as themselves.
pub open spec fn written_by_nostr(e: NostrEvent) -> bool {
    &&& e.id@ == nostr_event_id_of(e.pubkey@, e.created_at, e.kind, tags_view(e.tags@), e.content@)
    &&& nostr_sig_valid(e.id@, e.pubkey@, e.sig@)
    &&& nostr_event_id(e.id@) == Some(e.id@)
    &&& nostr_public_key(e.pubkey@) == Some(e.pubkey@)
    &&& nostr_signature(e.sig@) == Some(e.sig@)
}

/// `s` is an event as nostr signs it, with the JSON text nostr writes for
/// exactly that event.
pub open spec fn signed_by_nostr(s: SignedEvent) -> bool {
    &&& written_by_nostr(s.event)
    &&& s.json@ == nostr_event_json(
        s.event.id@,
        s.event.pubkey@,
        s.event.created_at,
        s.event.kind,
        tags_view(s.event.tags@),
        s.event.content@,
        s.event.sig@,
    )
}

/// A locally signed event, with the JSON text that nostr wrote for it.
#[derive(Debug, Clone)]
pub struct SignedEvent {
    /// The event.
    pub event: NostrEvent,
    /// Its JSON serialization, as nostr writes it.
    pub json: String,
}

/// Builds an event with `nostr::event::EventBuilder::new(kind, content)`,
/// `.tags(tags)`, signs it with `FinalizeEvent::finalize` under
/// `nostr::key::Keys::new(secret)` (creation time from the clock, signature
/// randomness from the operating system), and returns the id, author key,
/// creation time, signature and JSON text of the signed event. Claims: the
/// author key is the public key of the secret; the id is the NIP-01 id of
/// the public key, time, kind, tags and content (`compute_id`); the
/// signature verifies for that id (`add_signature` checks it before
/// returning the event); the JSON text is `try_as_json` of the event with
/// these fields; the id, key and signature, written by nostr's `to_hex`,
/// read back through `EventId::parse`, `PublicKey::parse` and
/// `Signature::from_hex` as themselves (hex decoding inverts hex encoding);
/// a tag list holding an empty tag is refused (`Tags::parse` rejects an
/// empty tag before anything is signed) and any other succeeds (`Keys`
/// signs with its own key and the check of its fresh signature passes;
/// serde writes an event's JSON without error). The creation time (the
/// clock) and the signature bytes (randomness) are left unstated.
#[verifier::external_body]
fn nostr_finalize(secret: &[u8], kind: u16, content: &str, tags: &Vec<Vec<String>>) -> (r: Result<(String, String, u64, String, String), String>)
    requires
        nostr_secret_key_valid(secret@),
    ensures
        r matches Ok(p) ==> p.1@ == nostr_public_key_hex(secret@),
        r matches Ok(p) ==> nostr_event_id(p.0@) == Some(p.0@),
        r matches Ok(p) ==> nostr_public_key(p.1@) == Some(p.1@),
        r matches Ok(p) ==> nostr_signature(p.3@) == Some(p.3@),
        r matches Ok(p) ==> p.0@ == nostr_event_id_of(p.1@, p.2, kind, tags_view(tags@), content@),
        r matches Ok(p) ==> nostr_sig_valid(p.0@, p.1@, p.3@),
        r matches Ok(p) ==> p.4@ == nostr_event_json(p.0@, p.1@, p.2, kind, tags_view(tags@), content@, p.3@),
        r is Ok <==> tags_non_empty(tags@),
{
    let keys = Keys::new(SecretKey::from_slice(secret).unwrap());
    let tags = match Tags::parse(tags.clone()) { Ok(t) => t, Err(e) => return Err(e.to_string()) };
    let builder = EventBuilder::new(Kind::from_u16(kind), content).tags(tags);
    let ev = match FinalizeEvent::finalize(builder, &keys) { Ok(ev) => ev, Err(e) => return Err(e.to_string()) };
    match ev.try_as_json() {
        Ok(json) => Ok((ev.id.to_hex(), ev.pubkey.to_hex(), ev.created_at.as_secs(), ev.sig.to_string(), json)),
        Err(e) => Err(e.to_string()),
    }
}

/// The signed event that nostr's answer describes: the id, author key,
/// creation time, signature and JSON text it gave, with the kind, content
/// and tags that were signed; nostr's refusal is passed on.
pub fn signed_event_from(
    parts: Result<(String, String, u64, String, String), String>,
    kind: u16,
    content: &str,
    tags: Vec<Vec<String>>,
) -> (r: Result<SignedEvent, String>)
    ensures
        match parts {
            Ok(p) => r matches Ok(s) && {
                &&& s.event.id@ == p.0@
                &&& s.event.pubkey@ == p.1@
                &&& s.event.created_at == p.2
                &&& s.event.sig@ == p.3@
                &&& s.json@ == p.4@
                &&& s.event.kind == kind
                &&& s.event.content@ == content@
                &&& s.event.tags@ == tags@
            },
            Err(e) => r matches Err(m) && m@ == e@,
        },
{
    match parts {
        Ok((id, pubkey, created_at, sig, json)) => Ok(
            SignedEvent {
                event: NostrEvent { id, pubkey, created_at, kind, tags, content: content.to_string(), sig },
                json,
            },
        ),
        Err(e) => Err(e),
    }
}

/// Signs an event of `kind` with `content` and `tags` with the keys.
/// The signed event keeps the kind, content and tags it was given, names
/// the key's public key as its author, carries the NIP-01 id of its fields
/// and a signature that verifies for it, and comes with the JSON text of
/// exactly that event. It succeeds exactly when no tag is empty; a
/// refusal carries nostr's message.
pub fn sign_event(keys: &KeyManager, kind: u16, content: &str, tags: Vec<Vec<String>>) -> (r: Result<SignedEvent, String>)
    ensures
        r matches Ok(s) ==> {
            &&& s.event.kind == kind
            &&& s.event.content@ == content@
            &&& s.event.tags@ == tags@
            &&& s.event.pubkey@ == nostr_public_key_hex(keys.secret())
            &&& signed_by_nostr(s)
        },
        r is Ok <==> tags_non_empty(tags@),
{
    let parts = nostr_finalize(keys.keys(), kind, content, &tags);
    signed_event_from(parts, kind, content, tags)
}

} // verus!
