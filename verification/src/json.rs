//! A plain model of JSON values as the server sends them.

use vstd::prelude::*;
use crate::text::{chars_of, str_eq_chars};
use serde_json::Value;

verus! {

/// A JSON value. Numbers keep only what the client reads of them: their value
/// when they are a non-negative integer that fits in `u64`.
#[derive(Debug, PartialEq)]
pub enum JsonValue {
    Null,
    Bool(bool),
    /// A number; `Some(n)` when it is a non-negative integer `n`.
    Number(Option<u64>),
    String(String),
    Array(Vec<JsonValue>),
    Object(Vec<JsonField>),
}

/// One entry of a JSON object; keys of an object are distinct.
#[derive(Debug, PartialEq)]
pub struct JsonField {
    pub key: String,
    pub value: JsonValue,
}

fn clone_values(v: &Vec<JsonValue>) -> (r: Vec<JsonValue>)
    ensures
        r@.len() == v@.len(),
    decreases v@,
{
    let mut r: Vec<JsonValue> = Vec::new();
    let mut i: usize = 0;
    while i < v.len()
        invariant
            i <= v@.len(),
            r@.len() == i,
        decreases v.len() - i,
    {
        proof {
            assert(decreases_to!(v@ => v@[i as int]));
        }
        let c = v[i].clone();
        r.push(c);
        i = i + 1;
    }
    r
}

fn clone_fields(v: &Vec<JsonField>) -> (r: Vec<JsonField>)
    ensures
        r@.len() == v@.len(),
    decreases v@,
{
    let mut r: Vec<JsonField> = Vec::new();
    let mut i: usize = 0;
    while i < v.len()
        invariant
            i <= v@.len(),
            r@.len() == i,
        decreases v.len() - i,
    {
        proof {
            assert(decreases_to!(v@ => v@[i as int]));
        }
        let c = JsonField { key: v[i].key.clone(), value: v[i].value.clone() };
        r.push(c);
        i = i + 1;
    }
    r
}

impl Clone for JsonValue {
    fn clone(&self) -> (r: Self)
        decreases self,
    {
        match self {
            JsonValue::Null => JsonValue::Null,
            JsonValue::Bool(b) => JsonValue::Bool(*b),
            JsonValue::Number(n) => JsonValue::Number(*n),
            JsonValue::String(s) => JsonValue::String(s.clone()),
            JsonValue::Array(a) => JsonValue::Array(clone_values(a)),
            JsonValue::Object(o) => JsonValue::Object(clone_fields(o)),
        }
    }
}

impl Clone for JsonField {
    fn clone(&self) -> (r: Self) {
        JsonField { key: self.key.clone(), value: self.value.clone() }
    }
}

/// What `serde_json::from_str::<serde_json::Value>` reads from `text`, in the
/// model above; `None` when `text` is not one JSON value.
pub uninterp spec fn json_of_text(text: Seq<char>) -> Option<JsonValue>;

/// Reads `text` as JSON with `serde_json::from_str::<serde_json::Value>`.
/// Trusted: the result is what serde_json reads from `text`, and `None`
/// exactly when serde_json refuses it. The members of an array or object are
/// converted by reading their own JSON text again, which serde_json wrote.
#[verifier::external_body]
pub fn parse_json_text(text: &str) -> (r: Option<JsonValue>)
    ensures
        r == json_of_text(text@),
{
    Some(match serde_json::from_str::<Value>(text).ok()? {
        Value::Null => JsonValue::Null,
        Value::Bool(b) => JsonValue::Bool(b),
        Value::Number(n) => JsonValue::Number(n.as_u64()),
        Value::String(s) => JsonValue::String(s),
        Value::Array(a) => JsonValue::Array(
            a.iter().map(|x| parse_json_text(&x.to_string())).collect::<Option<_>>()?,
        ),
        Value::Object(o) => JsonValue::Object(o.iter().map(|(k, x)| Some(JsonField {
            key: k.clone(), value: parse_json_text(&x.to_string())? })).collect::<Option<_>>()?),
    })
}

/// What `serde_json::to_string` writes for a list of strings; `None` when it
/// reports an error.
pub uninterp spec fn json_text_of_strings(items: Seq<Seq<char>>) -> Option<Seq<char>>;

/// Writes a list of strings as JSON text with `serde_json::to_string`.
/// Trusted: the result is what serde_json writes for the list, `None` when it
/// reports an error.
#[verifier::external_body]
pub fn strings_to_json_text(items: &Vec<String>) -> (r: Option<String>)
    ensures
        json_text_of_strings(items@.map_values(|s: String| s@)) == match r {
            Some(t) => Some(t@),
            None => None,
        },
{
    serde_json::to_string(items).ok()
}

/// Value stored under `key`: the first entry with that key.
pub open spec fn map_get(m: Seq<JsonField>, key: Seq<char>) -> Option<JsonValue>
    decreases m.len(),
{
    if m.len() == 0 {
        None
    } else if m[0].key@ == key {
        Some(m[0].value)
    } else {
        map_get(m.drop_first(), key)
    }
}

/// `Value::as_str`.
pub open spec fn as_str_spec(v: JsonValue) -> Option<Seq<char>> {
    match v {
        JsonValue::String(s) => Some(s@),
        _ => None,
    }
}

/// `Value::as_u64`.
pub open spec fn as_u64_spec(v: JsonValue) -> Option<u64> {
    match v {
        JsonValue::Number(n) => n,
        _ => None,
    }
}

/// The string stored under `key`, when there is one and it is a string.
pub open spec fn get_str(m: Seq<JsonField>, key: Seq<char>) -> Option<Seq<char>> {
    match map_get(m, key) {
        Some(v) => as_str_spec(v),
        None => None,
    }
}

/// Whether two string slices are equal.
pub fn str_eq_strs(a: &str, b: &str) -> (r: bool)
    ensures
        r == (a@ == b@),
{
    let bc = chars_of(b);
    str_eq_chars(a, bc.as_slice())
}

/// The value stored under `key` in a JSON object.
pub fn json_map_get<'a>(m: &'a Vec<JsonField>, key: &str) -> (r: Option<&'a JsonValue>)
    ensures
        match r {
            Some(v) => map_get(m@, key@) == Some(*v),
            None => map_get(m@, key@) is None,
        },
{
    let mut i: usize = 0;
    assert(m@.skip(0) =~= m@);
    while i < m.len()
        invariant
            i <= m@.len(),
            map_get(m@, key@) == map_get(m@.skip(i as int), key@),
        decreases m.len() - i,
    {
        assert(m@.skip(i as int).drop_first() =~= m@.skip(i + 1));
        let k: &str = m[i].key.as_str();
        if str_eq_strs(k, key) {
            return Some(&m[i].value);
        }
        i = i + 1;
    }
    None
}

/// `Value::as_str`.
pub fn json_as_str(v: &JsonValue) -> (r: Option<&str>)
    ensures
        match r {
            Some(s) => as_str_spec(*v) == Some(s@),
            None => as_str_spec(*v) is None,
        },
{
    match v {
        JsonValue::String(s) => Some(s.as_str()),
        _ => None,
    }
}

/// The string stored under `key`, if any.
pub fn json_get_str<'a>(m: &'a Vec<JsonField>, key: &str) -> (r: Option<&'a str>)
    ensures
        match r {
            Some(s) => get_str(m@, key@) == Some(s@),
            None => get_str(m@, key@) is None,
        },
{
    match json_map_get(m, key) {
        Some(v) => json_as_str(v),
        None => None,
    }
}

/// `Value::as_u64`.
pub fn json_as_u64(v: &JsonValue) -> (r: Option<u64>)
    ensures
        r == as_u64_spec(*v),
{
    match v {
        JsonValue::Number(n) => *n,
        _ => None,
    }
}

} // verus!
