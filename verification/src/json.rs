//! A JSON document tree, as the translation services answer with it.
use vstd::prelude::*;

use crate::text::str_eq;

verus! {

/// A JSON value. Objects hold their members as the parser hands them over
/// (one member per key, sorted by key, the last of repeated keys kept);
/// numbers keep the value that the logic reads from them, the integer when it
/// fits an `i64`.
pub enum JsonValue {
    Null,
    Bool(bool),
    Number(Option<i64>),
    String(String),
    Array(Vec<JsonValue>),
    Object(Vec<(String, JsonValue)>),
}

/// The value of the first member named `key` among `entries`.
pub open spec fn lookup_member(entries: Seq<(String, JsonValue)>, key: Seq<char>) -> Option<JsonValue>
    decreases entries.len(),
{
    if entries.len() == 0 {
        None
    } else if entries[0].0@ == key {
        Some(entries[0].1)
    } else {
        lookup_member(entries.drop_first(), key)
    }
}

impl JsonValue {
    /// The elements, when the value is an array.
    pub open spec fn array_spec(self) -> Option<Seq<JsonValue>> {
        match self {
            JsonValue::Array(a) => Some(a@),
            _ => None,
        }
    }

    /// The characters, when the value is a string.
    pub open spec fn str_spec(self) -> Option<Seq<char>> {
        match self {
            JsonValue::String(s) => Some(s@),
            _ => None,
        }
    }

    /// The integer, when the value is a number that fits an `i64`.
    pub open spec fn i64_spec(self) -> Option<i64> {
        match self {
            JsonValue::Number(n) => n,
            _ => None,
        }
    }

    /// The member named `key`, when the value is an object that has one.
    pub open spec fn member_spec(self, key: Seq<char>) -> Option<JsonValue> {
        match self {
            JsonValue::Object(entries) => lookup_member(entries@, key),
            _ => None,
        }
    }

    /// The elements, when the value is an array (`Value::as_array`).
    pub fn as_array(&self) -> (r: Option<&Vec<JsonValue>>)
        ensures
            match r {
                Some(a) => self.array_spec() == Some(a@),
                None => self.array_spec() is None,
            },
    {
        match self {
            JsonValue::Array(a) => Some(a),
            _ => None,
        }
    }

    /// The string, when the value is one (`Value::as_str`).
    pub fn as_str(&self) -> (r: Option<&String>)
        ensures
            match r {
                Some(s) => self.str_spec() == Some(s@),
                None => self.str_spec() is None,
            },
    {
        match self {
            JsonValue::String(s) => Some(s),
            _ => None,
        }
    }

    /// The integer, when the value is a number that fits an `i64` (`Value::as_i64`).
    pub fn as_i64(&self) -> (r: Option<i64>)
        ensures
            r == self.i64_spec(),
    {
        match self {
            JsonValue::Number(n) => *n,
            _ => None,
        }
    }

    /// The member named `key` of an object (`Value::get` with a string key).
    pub fn get(&self, key: &str) -> (r: Option<&JsonValue>)
        ensures
            match r {
                Some(v) => self.member_spec(key@) == Some(*v),
                None => self.member_spec(key@) is None,
            },
    {
        match self {
            JsonValue::Object(entries) => {
                let n = entries.len();
                assert(entries@.skip(0) == entries@);
                for i in 0..n
                    invariant
                        n == entries@.len(),
                        self.member_spec(key@) == lookup_member(entries@, key@),
                        lookup_member(entries@, key@) == lookup_member(entries@.skip(i as int), key@),
                {
                    assert(entries@.skip(i as int).drop_first() == entries@.skip(i + 1));
                    assert(entries@.skip(i as int)[0] == entries@[i as int]);
                    if str_eq(entries[i].0.as_str(), key) {
                        assert(entries@[i as int].0@ == key@);
                        assert(lookup_member(entries@.skip(i as int), key@) == Some(
                            entries@[i as int].1,
                        ));
                        assert(self.member_spec(key@) == Some(entries@[i as int].1));
                        let found = &entries[i].1;
                        assert(*found == entries@[i as int].1);
                        return Some(found);
                    }
                }
                None
            },
            _ => None,
        }
    }
}

} // verus!

verus! {

/// `serde_json::Value`, a parsed JSON document of serde_json.
#[verifier::external_type_specification]
#[verifier::external_body]
pub struct ExSerdeJsonValue(serde_json::Value);

/// The document that serde_json reads from a text, in the library's form,
/// or `None` when the text is not JSON.
pub uninterp spec fn json_document(text: Seq<char>) -> Option<JsonValue>;

/// The library's form of a serde_json value: one variant for each of
/// serde_json's, numbers as their `i64` value when they have one. Nothing
/// is claimed of it; it only serves `parse_json`.
#[verifier::external_body]
fn from_serde(v: &serde_json::Value) -> JsonValue {
    match v {
        serde_json::Value::Null => JsonValue::Null,
        serde_json::Value::Bool(b) => JsonValue::Bool(*b),
        serde_json::Value::Number(n) => JsonValue::Number(n.as_i64()),
        serde_json::Value::String(t) => JsonValue::String(t.clone()),
        serde_json::Value::Array(items) => JsonValue::Array(items.iter().map(from_serde).collect()),
        serde_json::Value::Object(m) => JsonValue::Object(m.iter().map(|(k, x)| (k.clone(), from_serde(x))).collect()),
    }
}

/// `serde_json::from_str::<serde_json::Value>`: the document a text holds,
/// or `None` when it is not JSON. Parsing depends on the text alone, so its
/// result is named.
#[verifier::external_body]
pub fn parse_json(text: &str) -> (r: Option<JsonValue>)
    ensures
        r == json_document(text@),
{
    match serde_json::from_str::<serde_json::Value>(text) {
        Ok(v) => Some(from_serde(&v)),
        Err(_) => None,
    }
}

} // verus!

