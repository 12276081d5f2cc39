//! JSON documents as the metadata probe reads them.

use crate::media_url::opt_view;
use crate::text::same_text;
use serde_json::Value;
use vstd::prelude::*;

verus! {

#[verifier::external_type_specification]
#[verifier::external_body]
pub struct ExValue(serde_json::Value);

/// A JSON value. A number keeps its value when it is an unsigned integer
/// that fits in `u64`, and its text; an object keeps its members in order.
#[derive(Debug)]
pub enum Json {
    Null,
    Bool(bool),
    Number { unsigned: Option<u64>, text: String },
    Text(String),
    Array(Vec<Json>),
    Object(Vec<(String, Json)>),
}

/// What `serde_json::from_slice` makes of `bytes`: the JSON value, or the
/// text of the parse error.
pub uninterp spec fn parsed_json(bytes: Seq<u8>) -> Result<Json, Seq<char>>;

/// A decoding outcome with its error taken as text.
pub open spec fn decoded_view(r: Result<Json, String>) -> Result<Json, Seq<char>> {
    match r {
        Ok(j) => Ok(j),
        Err(m) => Err(m@),
    }
}

/// Converts a `serde_json::Value` into a `Json`, variant by variant: a
/// number keeps `Number::as_u64` and its `Display` text, an array its
/// items, an object its members in the map's order.
#[verifier::external_body]
fn json_tree(value: Value) -> Json {
    match value {
        Value::Null => Json::Null,
        Value::Bool(b) => Json::Bool(b),
        Value::Number(n) => Json::Number { unsigned: n.as_u64(), text: n.to_string() },
        Value::String(s) => Json::Text(s),
        Value::Array(items) => Json::Array(items.into_iter().map(json_tree).collect()),
        Value::Object(map) => Json::Object(map.into_iter().map(|(k, v)| (k, json_tree(v))).collect()),
    }
}

/// Parses `bytes` with `serde_json::from_slice` into a `serde_json::Value`
/// and converts it with `json_tree`; a parse error becomes its `Display`
/// text. The contract claims only that the outcome is a function of the
/// bytes; which texts serde_json accepts, and what it makes of them, is
/// left unsaid.
#[verifier::external_body]
pub(crate) fn decode_json(bytes: &[u8]) -> (res: Result<Json, String>)
    ensures
        decoded_view(res) == parsed_json(bytes@),
{
    serde_json::from_slice::<Value>(bytes).map(json_tree).map_err(|e| e.to_string())
}

/// The value of the first member named `key` among `members`.
pub open spec fn member(members: Seq<(String, Json)>, key: Seq<char>) -> Option<Json>
    decreases members.len(),
{
    if members.len() == 0 {
        None
    } else if members[0].0@ == key {
        Some(members[0].1)
    } else {
        member(members.drop_first(), key)
    }
}

/// `value[key]`: the member `key` of an object; nothing for other values.
pub open spec fn json_field(value: Json, key: Seq<char>) -> Option<Json> {
    match value {
        Json::Object(members) => member(members@, key),
        _ => None,
    }
}

/// The text of a string value.
pub open spec fn text_value(v: Option<Json>) -> Option<Seq<char>> {
    match v {
        Some(Json::Text(s)) => Some(s@),
        _ => None,
    }
}

/// The value of a number that is an unsigned integer.
pub open spec fn unsigned_value(v: Option<Json>) -> Option<u64> {
    match v {
        Some(Json::Number { unsigned, .. }) => unsigned,
        _ => None,
    }
}

/// The text of a number.
pub open spec fn number_text(v: Option<Json>) -> Option<Seq<char>> {
    match v {
        Some(Json::Number { text, .. }) => Some(text@),
        _ => None,
    }
}

/// The member `key` of `value` (`Value::get`).
pub fn get<'a>(value: &'a Json, key: &str) -> (r: Option<&'a Json>)
    ensures
        match r {
            Some(v) => json_field(*value, key@) == Some(*v),
            None => json_field(*value, key@) is None,
        },
{
    match value {
        Json::Object(members) => {
            let n = members.len();
            let mut i: usize = 0;
            assert(members@.skip(0) =~= members@);
            while i < n
                invariant
                    *value == Json::Object(*members),
                    n == members@.len(),
                    0 <= i <= n,
                    member(members@, key@) == member(members@.skip(i as int), key@),
                decreases n - i,
            {
                let ghost rest = members@.skip(i as int);
                assert(rest[0] == members@[i as int]);
                let entry = &members[i];
                if same_text(entry.0.as_str(), key) {
                    assert(member(rest, key@) == Some(entry.1));
                    return Some(&entry.1);
                }
                assert(rest.drop_first() =~= members@.skip(i + 1));
                i = i + 1;
            }
            assert(members@.skip(n as int).len() == 0);
            None
        },
        _ => None,
    }
}

/// The member `key` of `value` when it is a string.
pub fn text_field(value: &Json, key: &str) -> (r: Option<String>)
    ensures
        opt_view(r) == text_value(json_field(*value, key@)),
{
    match get(value, key) {
        Some(Json::Text(s)) => Some(String::from_str(s.as_str())),
        _ => None,
    }
}

/// The member `key` of `value` when it is an unsigned integer
/// (`Value::as_u64`).
pub fn unsigned_field(value: &Json, key: &str) -> (r: Option<u64>)
    ensures
        r == unsigned_value(json_field(*value, key@)),
{
    match get(value, key) {
        Some(Json::Number { unsigned, .. }) => *unsigned,
        _ => None,
    }
}

/// The text of the member `key` of `value` when it is a number.
pub fn number_text_field(value: &Json, key: &str) -> (r: Option<String>)
    ensures
        opt_view(r) == number_text(json_field(*value, key@)),
{
    match get(value, key) {
        Some(Json::Number { text, .. }) => Some(String::from_str(text.as_str())),
        _ => None,
    }
}

/// The items of the member `key` of `value` when it is an array.
pub fn array_field<'a>(value: &'a Json, key: &str) -> (r: Option<&'a Vec<Json>>)
    ensures
        match r {
            Some(items) => json_field(*value, key@) == Some(Json::Array(*items)),
            None => !(json_field(*value, key@) matches Some(Json::Array(_))),
        },
{
    match get(value, key) {
        Some(Json::Array(items)) => Some(items),
        _ => None,
    }
}

} // verus!
