use vstd::prelude::*;

use crate::text::str_eq;

verus! {

/// A JSON number, as a parsed JSON document holds it.
#[derive(Debug, Clone, Copy, PartialEq, Eq, Structural)]
pub enum JsonNumber {
    /// A non-negative integer.
    PosInt(u64),
    /// A negative integer.
    NegInt(i64),
    /// A number with a fraction or an exponent; its value is not carried.
    Float,
}

/// A parsed JSON value. Objects hold their members in the order the parser
/// hands them over (a parser that keeps its objects in a sorted map gives
/// them sorted by key); a key occurs at most once in a parsed object, and a
/// lookup finds its first occurrence.
#[derive(Debug)]
pub enum JsonValue {
    /// `null`
    Null,
    /// `true` or `false`
    Bool(bool),
    /// A number.
    Number(JsonNumber),
    /// A string.
    Str(String),
    /// An array.
    Array(Vec<JsonValue>),
    /// An object.
    Object(Vec<(String, JsonValue)>),
}

/// The value stored under `key` among `fields` (its first occurrence).
pub open spec fn field_lookup(fields: Seq<(String, JsonValue)>, key: Seq<char>) -> Option<JsonValue>
    decreases fields.len(),
{
    if fields.len() == 0 {
        None
    } else if fields[0].0@ == key {
        Some(fields[0].1)
    } else {
        field_lookup(fields.skip(1), key)
    }
}

/// `v[key]` when `v` is an object holding `key`.
pub open spec fn json_get(v: JsonValue, key: Seq<char>) -> Option<JsonValue> {
    match v {
        JsonValue::Object(fields) => field_lookup(fields@, key),
        _ => None,
    }
}

/// `v[i]` when `v` is an array with an element at `i`.
pub open spec fn json_at(v: JsonValue, i: int) -> Option<JsonValue> {
    match v {
        JsonValue::Array(items) => if 0 <= i < items@.len() {
            Some(items@[i])
        } else {
            None
        },
        _ => None,
    }
}

/// The text of a string value.
pub open spec fn json_str(v: JsonValue) -> Option<Seq<char>> {
    match v {
        JsonValue::Str(s) => Some(s@),
        _ => None,
    }
}

/// The elements of an array value.
pub open spec fn json_array(v: JsonValue) -> Option<Seq<JsonValue>> {
    match v {
        JsonValue::Array(items) => Some(items@),
        _ => None,
    }
}

/// The members of an object value.
pub open spec fn json_object(v: JsonValue) -> Option<Seq<(String, JsonValue)>> {
    match v {
        JsonValue::Object(fields) => Some(fields@),
        _ => None,
    }
}

/// The value of a boolean.
pub open spec fn json_bool(v: JsonValue) -> Option<bool> {
    match v {
        JsonValue::Bool(b) => Some(b),
        _ => None,
    }
}

/// A number that is a non-negative integer (what `as_u64` gives).
pub open spec fn json_u64(v: JsonValue) -> Option<u64> {
    match v {
        JsonValue::Number(JsonNumber::PosInt(n)) => Some(n),
        _ => None,
    }
}

/// A number that is an integer fitting in `i64` (what `as_i64` gives).
pub open spec fn json_i64(v: JsonValue) -> Option<i64> {
    match v {
        JsonValue::Number(JsonNumber::PosInt(n)) => if n <= i64::MAX {
            Some(n as i64)
        } else {
            None
        },
        JsonValue::Number(JsonNumber::NegInt(n)) => Some(n),
        _ => None,
    }
}

/// The string stored under `key`, when there is one.
pub open spec fn str_member(v: JsonValue, key: Seq<char>) -> Option<Seq<char>> {
    match json_get(v, key) {
        Some(m) => json_str(m),
        None => None,
    }
}

/// The array stored under `key`, when there is one.
pub open spec fn array_member(v: JsonValue, key: Seq<char>) -> Option<Seq<JsonValue>> {
    match json_get(v, key) {
        Some(m) => json_array(m),
        None => None,
    }
}

/// The non-negative integer stored under `key`, when there is one.
pub open spec fn u64_member(v: JsonValue, key: Seq<char>) -> Option<u64> {
    match json_get(v, key) {
        Some(m) => json_u64(m),
        None => None,
    }
}

/// The `i64` stored under `key`, when there is one.
pub open spec fn i64_member(v: JsonValue, key: Seq<char>) -> Option<i64> {
    match json_get(v, key) {
        Some(m) => json_i64(m),
        None => None,
    }
}

/// The boolean stored under `key`, when there is one.
pub open spec fn bool_member(v: JsonValue, key: Seq<char>) -> Option<bool> {
    match json_get(v, key) {
        Some(m) => json_bool(m),
        None => None,
    }
}

/// The string at index `i`, when there is one.
pub open spec fn str_at(v: JsonValue, i: int) -> Option<Seq<char>> {
    match json_at(v, i) {
        Some(m) => json_str(m),
        None => None,
    }
}

/// The text of an optional string, or `default`.
pub open spec fn or_default(s: Option<Seq<char>>, default: Seq<char>) -> Seq<char> {
    match s {
        Some(t) => t,
        None => default,
    }
}

/// The view of an optional string.
pub open spec fn opt_view(s: Option<String>) -> Option<Seq<char>> {
    match s {
        Some(t) => Some(t@),
        None => None,
    }
}

/// A string value holding `s`.
pub(crate) fn text_value(s: &str) -> (r: JsonValue)
    ensures
        json_str(r) == Some(s@),
{
    JsonValue::Str(s.to_string())
}

/// The value an optional reference points to.
pub open spec fn opt_ref_view(v: Option<&JsonValue>) -> Option<JsonValue> {
    match v {
        Some(x) => Some(*x),
        None => None,
    }
}

/// A lookup finds the first member under the key.
pub proof fn lemma_lookup_at(fields: Seq<(String, JsonValue)>, i: int, key: Seq<char>)
    requires
        0 <= i < fields.len(),
        fields[i].0@ == key,
        forall|j: int| 0 <= j < i ==> (#[trigger] fields[j]).0@ != key,
    ensures
        field_lookup(fields, key) == Some(fields[i].1),
    decreases i,
{
    if i > 0 {
        let rest = fields.skip(1);
        assert forall|j: int| 0 <= j < i - 1 implies (#[trigger] rest[j]).0@ != key by {
            assert(rest[j] == fields[j + 1]);
        }
        lemma_lookup_at(rest, i - 1, key);
    }
}

impl JsonValue {
    /// The member stored under `key` (as `serde_json::Value::get` with a string).
    pub fn get(&self, key: &str) -> (r: Option<&JsonValue>)
        ensures
            r is Some <==> json_get(*self, key@) is Some,
            r matches Some(m) ==> json_get(*self, key@) == Some(*m),
    {
        match self {
            JsonValue::Object(fields) => {
                let mut i: usize = 0;
                assert(fields@.skip(0) =~= fields@);
                while i < fields.len()
                    invariant
                        i <= fields@.len(),
                        json_get(*self, key@) == field_lookup(fields@.skip(i as int), key@),
                    decreases fields@.len() - i,
                {
                    assert(fields@.skip(i as int).skip(1) =~= fields@.skip(i + 1));
                    assert(fields@.skip(i as int)[0] == fields@[i as int]);
                    if str_eq(fields[i].0.as_str(), key) {
                        return Some(&fields[i].1);
                    }
                    i = i + 1;
                }
                assert(fields@.skip(i as int).len() == 0);
                None
            },
            _ => None,
        }
    }

    /// The element at index `i` (as `serde_json::Value::get` with an index).
    pub fn at(&self, i: usize) -> (r: Option<&JsonValue>)
        ensures
            r is Some <==> json_at(*self, i as int) is Some,
            r matches Some(m) ==> json_at(*self, i as int) == Some(*m),
    {
        match self {
            JsonValue::Array(items) => if i < items.len() {
                Some(&items[i])
            } else {
                None
            },
            _ => None,
        }
    }

    /// The text of a string value.
    pub fn as_str(&self) -> (r: Option<&str>)
        ensures
            r is Some <==> json_str(*self) is Some,
            r matches Some(s) ==> json_str(*self) == Some(s@),
    {
        match self {
            JsonValue::Str(s) => Some(s.as_str()),
            _ => None,
        }
    }

    /// The elements of an array value.
    pub fn as_array(&self) -> (r: Option<&Vec<JsonValue>>)
        ensures
            r is Some <==> json_array(*self) is Some,
            r matches Some(a) ==> json_array(*self) == Some(a@),
    {
        match self {
            JsonValue::Array(items) => Some(items),
            _ => None,
        }
    }

    /// The members of an object value.
    pub fn as_object(&self) -> (r: Option<&Vec<(String, JsonValue)>>)
        ensures
            r is Some <==> json_object(*self) is Some,
            r matches Some(a) ==> json_object(*self) == Some(a@),
    {
        match self {
            JsonValue::Object(fields) => Some(fields),
            _ => None,
        }
    }

    /// The value of a boolean.
    pub fn as_bool(&self) -> (r: Option<bool>)
        ensures
            r == json_bool(*self),
    {
        match self {
            JsonValue::Bool(b) => Some(*b),
            _ => None,
        }
    }

    /// A number that is a non-negative integer.
    pub fn as_u64(&self) -> (r: Option<u64>)
        ensures
            r == json_u64(*self),
    {
        match self {
            JsonValue::Number(JsonNumber::PosInt(n)) => Some(*n),
            _ => None,
        }
    }

    /// A number that is an integer fitting in `i64`.
    pub fn as_i64(&self) -> (r: Option<i64>)
        ensures
            r == json_i64(*self),
    {
        match self {
            JsonValue::Number(JsonNumber::PosInt(n)) => if *n <= 0x7fff_ffff_ffff_ffff {
                Some(*n as i64)
            } else {
                None
            },
            JsonValue::Number(JsonNumber::NegInt(n)) => Some(*n),
            _ => None,
        }
    }

    /// The string stored under `key`, copied.
    pub fn str_member(&self, key: &str) -> (r: Option<String>)
        ensures
            opt_view(r) == str_member(*self, key@),
    {
        match self.get(key) {
            Some(m) => match m.as_str() {
                Some(s) => Some(s.to_string()),
                None => None,
            },
            None => None,
        }
    }

    /// The non-negative integer stored under `key`.
    pub fn u64_member(&self, key: &str) -> (r: Option<u64>)
        ensures
            r == u64_member(*self, key@),
    {
        match self.get(key) {
            Some(m) => m.as_u64(),
            None => None,
        }
    }

    /// The `i64` stored under `key`.
    pub fn i64_member(&self, key: &str) -> (r: Option<i64>)
        ensures
            r == i64_member(*self, key@),
    {
        match self.get(key) {
            Some(m) => m.as_i64(),
            None => None,
        }
    }

    /// The boolean stored under `key`.
    pub fn bool_member(&self, key: &str) -> (r: Option<bool>)
        ensures
            r == bool_member(*self, key@),
    {
        match self.get(key) {
            Some(m) => m.as_bool(),
            None => None,
        }
    }

    /// The array stored under `key`.
    pub fn array_member(&self, key: &str) -> (r: Option<&Vec<JsonValue>>)
        ensures
            r is Some <==> array_member(*self, key@) is Some,
            r matches Some(a) ==> array_member(*self, key@) == Some(a@),
    {
        match self.get(key) {
            Some(m) => m.as_array(),
            None => None,
        }
    }
}

} // verus!
