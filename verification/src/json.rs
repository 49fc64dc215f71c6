//! A plain model of a JSON document, as the JSON-speaking dictionaries
//! return it.

use vstd::prelude::*;
use crate::text::str_eq;

verus! {

#[verifier::external_type_specification]
#[verifier::external_body]
pub struct ExJsonValueOutside(serde_json::Value);

/// A JSON value.  Object members keep the order in which the parser yields
/// them.
#[derive(Debug)]
pub enum JsonValue {
    Null,
    Bool(bool),
    /// A number, in its textual form.
    Number(String),
    Str(String),
    Array(Vec<JsonValue>),
    Object(Vec<(String, JsonValue)>),
}

/// The value of the first member named `key` among `members`.
pub open spec fn member_value(members: Seq<(String, JsonValue)>, key: Seq<char>) -> Option<JsonValue>
    decreases members.len(),
{
    if members.len() == 0 {
        None
    } else if members[0].0@ == key {
        Some(members[0].1)
    } else {
        member_value(members.drop_first(), key)
    }
}

/// The member `key` of `v`, when `v` is an object that has one
/// (as `serde_json::Value::get` with a string key).
pub open spec fn json_get_spec(v: JsonValue, key: Seq<char>) -> Option<JsonValue> {
    match v {
        JsonValue::Object(members) => member_value(members@, key),
        _ => None,
    }
}

/// The member `key` of `v`, when `v` is an object that has one.
pub fn json_get<'a>(v: &'a JsonValue, key: &str) -> (r: Option<&'a JsonValue>)
    ensures
        match r {
            Some(x) => json_get_spec(*v, key@) == Some(*x),
            None => json_get_spec(*v, key@) is None,
        },
{
    match v {
        JsonValue::Object(members) => {
            let ghost ms = members@;
            assert(*v == JsonValue::Object(*members));
            assert(ms.subrange(0, ms.len() as int) =~= ms);
            let mut i: usize = 0;
            while i < members.len()
                invariant
                    ms == members@,
                    json_get_spec(*v, key@) == member_value(ms, key@),
                    i <= members.len(),
                    member_value(ms, key@) == member_value(ms.subrange(i as int, ms.len() as int), key@),
                decreases members.len() - i,
            {
                let ghost rest = ms.subrange(i as int, ms.len() as int);
                assert(rest[0] == ms[i as int]);
                assert(rest.drop_first() =~= ms.subrange(i + 1, ms.len() as int));
                if str_eq(members[i].0.as_str(), key) {
                    assert(member_value(rest, key@) == Some(ms[i as int].1));
                    let r = &members[i].1;
                    assert(*r == ms[i as int].1);
                    return Some(r);
                }
                i = i + 1;
            }
            None
        },
        _ => None,
    }
}

/// The string content of `v`, when it is a string (as `as_str`), else `""`.
pub open spec fn str_or_empty(v: Option<JsonValue>) -> Seq<char> {
    match v {
        Some(JsonValue::Str(s)) => s@,
        _ => Seq::empty(),
    }
}

/// The string member `key` of `v`, or `""` when `v` has no such member or it
/// is not a string (as `v.get(key).and_then(as_str).unwrap_or("")`).
pub fn json_str_member<'a>(v: &'a JsonValue, key: &str) -> (s: &'a str)
    ensures
        s@ == str_or_empty(json_get_spec(*v, key@)),
{
    proof { reveal_strlit(""); }
    match json_get(v, key) {
        Some(JsonValue::Str(s)) => s.as_str(),
        _ => "",
    }
}

/// The JSON value that `text` parses to, or `None` when `text` is not JSON.
pub uninterp spec fn parsed_json(text: Seq<char>) -> Option<JsonValue>;

/// Parses `text` as JSON.
///
/// Trusted: calls `serde_json::from_str` into a `serde_json::Value` and
/// converts that value variant by variant (numbers by their text, object
/// members in the order the map yields them).  The result is named
/// `parsed_json`; nothing more is claimed of it.
#[verifier::external_body]
pub(crate) fn parse_json(text: &str) -> (r: Option<JsonValue>)
    ensures
        r == parsed_json(text@),
{
    serde_json::from_str::<serde_json::Value>(text).ok().map(json_from_value)
}

/// Converts a `serde_json::Value` into a `JsonValue`, variant by variant.
///
/// Trusted, with no contract: it only moves each variant's contents over
/// (numbers by their `to_string`); what `parse_json` claims is named by
/// `parsed_json`.
#[verifier::external_body]
fn json_from_value(v: serde_json::Value) -> JsonValue {
    match v {
        serde_json::Value::Null => JsonValue::Null,
        serde_json::Value::Bool(b) => JsonValue::Bool(b),
        serde_json::Value::Number(n) => JsonValue::Number(n.to_string()),
        serde_json::Value::String(s) => JsonValue::Str(s),
        serde_json::Value::Array(a) => JsonValue::Array(a.into_iter().map(json_from_value).collect()),
        serde_json::Value::Object(o) => JsonValue::Object(o.into_iter().map(|(k, x)| (k, json_from_value(x))).collect()),
    }
}

} // verus!
