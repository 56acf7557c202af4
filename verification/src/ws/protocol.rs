// Client-to-relay frames of NIP-01 and NIP-42 (EVENT, AUTH, REQ, CLOSE), as
// the JSON arrays that are sent as WebSocket text frames.

use vstd::prelude::*;

use crate::event::{event_to_json, event_written, NostrEvent};
use crate::json::{json_array, json_str, text_value, JsonValue};
use crate::ws::subscription::{filter_to_json, filter_written, Filter};

verus! {

/// `v` is the frame `[<label>, <event>]`.
pub open spec fn event_frame(v: JsonValue, label: Seq<char>, e: NostrEvent) -> bool {
    json_array(v) matches Some(items) && items.len() == 2 && json_str(items[0]) == Some(label)
        && event_written(items[1], e)
}

/// `v` is the frame `["REQ", <sub_id>, <filter>...]`.
pub open spec fn req_frame(v: JsonValue, sub_id: Seq<char>, filters: Seq<Filter>) -> bool {
    json_array(v) matches Some(items) && items.len() == filters.len() + 2 && json_str(items[0]) == Some(
        "REQ"@,
    ) && json_str(items[1]) == Some(sub_id) && forall|i: int|
        0 <= i < filters.len() ==> filter_written(#[trigger] items[i + 2], filters[i])
}

/// `v` is the frame `["CLOSE", <sub_id>]`.
pub open spec fn close_frame(v: JsonValue, sub_id: Seq<char>) -> bool {
    json_array(v) matches Some(items) && items.len() == 2 && json_str(items[0]) == Some("CLOSE"@)
        && json_str(items[1]) == Some(sub_id)
}

/// The frame that publishes an event.
pub fn format_event(event: &NostrEvent) -> (r: JsonValue)
    ensures
        event_frame(r, "EVENT"@, *event),
{
    JsonValue::Array(vec![text_value("EVENT"), event_to_json(event)])
}

/// The frame that answers an AUTH challenge with a signed auth event.
pub fn format_auth(event: &NostrEvent) -> (r: JsonValue)
    ensures
        event_frame(r, "AUTH"@, *event),
{
    JsonValue::Array(vec![text_value("AUTH"), event_to_json(event)])
}

/// The frame that opens subscription `sub_id` with `filters`.
pub fn format_req(sub_id: &str, filters: &[Filter]) -> (r: JsonValue)
    ensures
        req_frame(r, sub_id@, filters@),
{
    let mut items: Vec<JsonValue> = vec![text_value("REQ"), text_value(sub_id)];
    let mut i: usize = 0;
    while i < filters.len()
        invariant
            i <= filters@.len(),
            items@.len() == i + 2,
            json_str(items@[0]) == Some("REQ"@),
            json_str(items@[1]) == Some(sub_id@),
            forall|k: int| 0 <= k < i ==> filter_written(#[trigger] items@[k + 2], filters@[k]),
        decreases filters@.len() - i,
    {
        items.push(filter_to_json(&filters[i]));
        i = i + 1;
    }
    JsonValue::Array(items)
}

/// The frame that closes subscription `sub_id`.
pub fn format_close(sub_id: &str) -> (r: JsonValue)
    ensures
        close_frame(r, sub_id@),
{
    JsonValue::Array(vec![text_value("CLOSE"), text_value(sub_id)])
}

} // verus!
