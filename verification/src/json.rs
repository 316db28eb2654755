//! JSON text as plain values: one parse through `serde_json`, and the reading
//! of members, strings, numbers and arrays out of what it gives.
use vstd::prelude::*;
use crate::text::{opt_seq, owned, str_eq};

verus! {

#[verifier::external_type_specification]
#[verifier::external_body]
pub struct ExJsonValue(serde_json::Value);

/// A JSON value. A number keeps its value when it is a whole number that fits
/// a `u64` (what `serde_json`'s `as_u64` gives), else none.
pub enum JsonValue {
    Null,
    Bool(bool),
    Number(Option<u64>),
    Str(String),
    Array(Vec<JsonValue>),
    Object(Vec<JsonMember>),
}

/// A member of a JSON object, in the order the parser lists them.
pub struct JsonMember {
    pub key: String,
    pub value: JsonValue,
}

/// What `serde_json` parses `text` into, as a `JsonValue`; none when the text
/// is not one JSON value.
pub uninterp spec fn spec_json(text: Seq<char>) -> Option<JsonValue>;

/// Turns a `serde_json::Value` into a `JsonValue`, variant by variant, keeping
/// the object members in the order the parser's map gives them. Nothing is
/// claimed of it; `parse_json` names what the two give together.
#[verifier::external_body]
fn json_of_value(v: &serde_json::Value) -> JsonValue {
    match v {
        serde_json::Value::Null => JsonValue::Null,
        serde_json::Value::Bool(b) => JsonValue::Bool(*b),
        serde_json::Value::Number(n) => JsonValue::Number(n.as_u64()),
        serde_json::Value::String(s) => JsonValue::Str(s.clone()),
        serde_json::Value::Array(a) => JsonValue::Array(a.iter().map(json_of_value).collect()),
        serde_json::Value::Object(m) => JsonValue::Object(
            m.iter().map(|(k, x)| JsonMember { key: k.clone(), value: json_of_value(x) }).collect(),
        ),
    }
}

/// Calls `serde_json::from_str` for a `serde_json::Value` and converts the
/// value. Claims: the result is the name `spec_json` of the text; nothing is
/// claimed of which texts parse.
#[verifier::external_body]
pub(crate) fn parse_json(text: &str) -> (r: Option<JsonValue>)
    ensures
        r == spec_json(text@),
{
    match serde_json::from_str::<serde_json::Value>(text) {
        Ok(v) => Some(json_of_value(&v)),
        Err(_) => None,
    }
}

/// Index of the first member named `key` at or after `i`, or -1.
pub open spec fn key_index_from(ms: Seq<JsonMember>, key: Seq<char>, i: int) -> int
    decreases ms.len() - i,
{
    if i < 0 || i >= ms.len() {
        -1
    } else if ms[i].key@ == key {
        i
    } else {
        key_index_from(ms, key, i + 1)
    }
}

/// The value of member `key` of `j`: the first member with that name, when
/// `j` is an object (what indexing a `serde_json::Value` by a name reads).
pub open spec fn field(j: JsonValue, key: Seq<char>) -> Option<JsonValue> {
    match j {
        JsonValue::Object(ms) => {
            let i = key_index_from(ms@, key, 0);
            if 0 <= i < ms@.len() {
                Some(ms@[i].value)
            } else {
                None
            }
        },
        _ => None,
    }
}

/// The text of `j` when it is a string.
pub open spec fn str_of(j: Option<JsonValue>) -> Option<Seq<char>> {
    match j {
        Some(JsonValue::Str(s)) => Some(s@),
        _ => None,
    }
}

/// The number of `j` when it is a whole number that fits a `u64`.
pub open spec fn u64_of(j: Option<JsonValue>) -> Option<u64> {
    match j {
        Some(JsonValue::Number(n)) => n,
        _ => None,
    }
}

/// The items of `j` when it is an array.
pub open spec fn array_of(j: Option<JsonValue>) -> Option<Seq<JsonValue>> {
    match j {
        Some(JsonValue::Array(a)) => Some(a@),
        _ => None,
    }
}

/// Member `key` of `j`.
pub fn get<'a>(j: &'a JsonValue, key: &str) -> (r: Option<&'a JsonValue>)
    ensures
        match r {
            Some(v) => field(*j, key@) == Some(*v),
            None => field(*j, key@) is None,
        },
{
    match j {
        JsonValue::Object(ms) => {
            let mut i: usize = 0;
            while i < ms.len()
                invariant
                    *j == JsonValue::Object(*ms),
                    i <= ms@.len(),
                    key_index_from(ms@, key@, 0) == key_index_from(ms@, key@, i as int),
                decreases ms@.len() - i,
            {
                if str_eq(ms[i].key.as_str(), key) {
                    assert(key_index_from(ms@, key@, i as int) == i);
                    return Some(&ms[i].value);
                }
                i = i + 1;
            }
            None
        },
        _ => None,
    }
}

/// Member `key` of `j` when it is a string.
pub fn get_str(j: &JsonValue, key: &str) -> (r: Option<String>)
    ensures
        opt_seq(r) == str_of(field(*j, key@)),
{
    match get(j, key) {
        Some(JsonValue::Str(s)) => Some(owned(s.as_str())),
        _ => None,
    }
}

/// Member `key` of `j` when it is a whole number that fits a `u64`.
pub fn get_u64(j: &JsonValue, key: &str) -> (r: Option<u64>)
    ensures
        r == u64_of(field(*j, key@)),
{
    match get(j, key) {
        Some(JsonValue::Number(n)) => *n,
        _ => None,
    }
}

/// Member `key` of `j` when it is an array.
pub fn get_array<'a>(j: &'a JsonValue, key: &str) -> (r: Option<&'a Vec<JsonValue>>)
    ensures
        match r {
            Some(a) => array_of(field(*j, key@)) == Some(a@),
            None => array_of(field(*j, key@)) is None,
        },
{
    match get(j, key) {
        Some(JsonValue::Array(a)) => Some(a),
        _ => None,
    }
}

} // verus!
