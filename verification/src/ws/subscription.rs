// Subscription filters and subscription ids.

use vstd::prelude::*;

use crate::event::string_array;
use crate::json::{json_array, json_get, json_u64, lemma_lookup_at, JsonNumber, JsonValue};
use crate::text::push_str;

verus! {

/// Kind of a stream message.
pub const KIND_STREAM_MESSAGE: u16 = 9;

/// Kind of a message edit.
pub const KIND_EDIT: u16 = 40003;

/// Kind of a deletion.
pub const KIND_DELETION: u16 = 5;

/// Kind of a reaction.
pub const KIND_REACTION: u16 = 7;

/// Kind of a system message.
pub const KIND_SYSTEM_MESSAGE: u16 = 40099;

/// Kind of a typing indicator.
pub const KIND_TYPING: u16 = 20002;

/// A NIP-01 subscription filter on event kinds and on `h` (channel) tags.
/// Kinds are kept in ascending order without repeats, as a set.
#[derive(Debug)]
pub struct Filter {
    kinds: Vec<u16>,
    channels: Vec<String>,
}

/// The kinds are strictly ascending.
pub open spec fn ascending(kinds: Seq<u16>) -> bool {
    forall|i: int, j: int| 0 <= i < j < kinds.len() ==> kinds[i] < kinds[j]
}

impl Filter {
    /// The kinds the filter admits, ascending.
    pub closed spec fn kind_set(&self) -> Seq<u16> {
        self.kinds@
    }

    /// The `h` tag values the filter admits.
    pub closed spec fn channel_set(&self) -> Seq<Seq<char>> {
        self.channels@.map_values(|s: String| s@)
    }

    #[verifier::type_invariant]
    spec fn kinds_ascending(&self) -> bool {
        ascending(self.kinds@)
    }

    /// The kinds the filter admits, ascending.
    pub fn kinds(&self) -> (r: &Vec<u16>)
        ensures
            r@ == self.kind_set(),
            ascending(r@),
    {
        proof {
            use_type_invariant(self);
        }
        &self.kinds
    }

    /// The `h` tag values the filter admits.
    pub fn channels(&self) -> (r: &Vec<String>)
        ensures
            r@.map_values(|s: String| s@) == self.channel_set(),
    {
        &self.channels
    }
}

/// The filter for the events of a channel: messages, edits, deletions,
/// reactions and system messages tagged `h` with the channel id.
pub fn channel_message_filter(channel_id: &str) -> (f: Filter)
    ensures
        f.kind_set() == seq![
            KIND_DELETION,
            KIND_REACTION,
            KIND_STREAM_MESSAGE,
            KIND_EDIT,
            KIND_SYSTEM_MESSAGE,
        ],
        f.channel_set() == seq![channel_id@],
{
    let kinds = vec![KIND_DELETION, KIND_REACTION, KIND_STREAM_MESSAGE, KIND_EDIT, KIND_SYSTEM_MESSAGE];
    let channels = vec![channel_id.to_string()];
    assert(channels@.map_values(|s: String| s@) =~= seq![channel_id@]);
    Filter { kinds, channels }
}

/// The filter for the typing indicators of a channel.
pub fn typing_indicator_filter(channel_id: &str) -> (f: Filter)
    ensures
        f.kind_set() == seq![KIND_TYPING],
        f.channel_set() == seq![channel_id@],
{
    let kinds = vec![KIND_TYPING];
    let channels = vec![channel_id.to_string()];
    assert(channels@.map_values(|s: String| s@) =~= seq![channel_id@]);
    Filter { kinds, channels }
}

/// `v` is an array of the numbers `ns`.
pub open spec fn numbers_written(v: JsonValue, ns: Seq<u16>) -> bool {
    json_array(v) matches Some(items) && items.len() == ns.len() && forall|i: int|
        0 <= i < ns.len() ==> json_u64(#[trigger] items[i]) == Some(ns[i] as u64)
}

/// `v` is the NIP-01 JSON object of `f`: `kinds` holds its kinds and `#h`
/// its channel ids.
pub open spec fn filter_written(v: JsonValue, f: Filter) -> bool {
    &&& (json_get(v, "kinds"@) matches Some(k) && numbers_written(k, f.kind_set()))
    &&& (json_get(v, "#h"@) matches Some(h) && string_array(h) == Some(f.channel_set()))
}

/// The NIP-01 JSON object of a filter.
pub fn filter_to_json(f: &Filter) -> (r: JsonValue)
    ensures
        filter_written(r, *f),
{
    let kinds = f.kinds();
    let mut nums: Vec<JsonValue> = Vec::new();
    let mut i: usize = 0;
    while i < kinds.len()
        invariant
            i <= kinds@.len(),
            nums@.len() == i,
            forall|k: int| 0 <= k < i ==> json_u64(#[trigger] nums@[k]) == Some(kinds@[k] as u64),
        decreases kinds@.len() - i,
    {
        nums.push(JsonValue::Number(JsonNumber::PosInt(kinds[i] as u64)));
        i = i + 1;
    }
    let channels = f.channels();
    let mut texts: Vec<JsonValue> = Vec::new();
    let mut j: usize = 0;
    while j < channels.len()
        invariant
            j <= channels@.len(),
            texts@.len() == j,
            forall|k: int| 0 <= k < j ==> (#[trigger] texts@[k]) == JsonValue::Str(channels@[k]),
        decreases channels@.len() - j,
    {
        texts.push(JsonValue::Str(channels[j].clone()));
        j = j + 1;
    }
    let kinds_json = JsonValue::Array(nums);
    let tags_json = JsonValue::Array(texts);
    proof {
        assert(numbers_written(kinds_json, f.kind_set()));
        assert(crate::event::all_strings(texts@));
        assert(texts@.map_values(|x: JsonValue| crate::json::json_str(x)->Some_0) =~= f.channel_set());
    }
    let fields: Vec<(String, JsonValue)> = vec![("kinds".to_string(), kinds_json), ("#h".to_string(), tags_json)];
    proof {
        reveal_strlit("kinds");
        reveal_strlit("#h");
        assert("kinds"@[0] != "#h"@[0]);
        lemma_lookup_at(fields@, 0, "kinds"@);
        lemma_lookup_at(fields@, 1, "#h"@);
    }
    JsonValue::Object(fields)
}

/// A lowercase hexadecimal digit.
pub open spec fn is_lower_hex(c: char) -> bool {
    ('0' <= c && c <= '9') || ('a' <= c && c <= 'f')
}

/// Calls `uuid::Uuid::new_v4()` and writes it with `as_simple()`: 32
/// lowercase hex digits, random each time. Only the shape is stated.
#[verifier::external_body]
fn random_simple_uuid() -> (r: String)
    ensures
        r@.len() == 32,
        forall|i: int| 0 <= i < 32 ==> is_lower_hex(#[trigger] r@[i]),
{
    uuid::Uuid::new_v4().as_simple().to_string()
}

/// A fresh subscription id: `prefix`, a hyphen, and a random v4 UUID in 32
/// lowercase hex digits.
pub fn generate_sub_id(prefix: &str) -> (r: String)
    ensures
        exists|u: Seq<char>|
            u.len() == 32 && (forall|i: int| 0 <= i < 32 ==> is_lower_hex(#[trigger] u[i])) && r@
                == prefix@ + "-"@ + u,
{
    let u = random_simple_uuid();
    let mut r = prefix.to_string();
    push_str(&mut r, "-");
    push_str(&mut r, u.as_str());
    assert(r@ == prefix@ + "-"@ + u@);
    r
}

} // verus!
