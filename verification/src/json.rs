//! A JSON document as the relay reads it, and the parser that produces one.

use vstd::prelude::*;
use crate::text::same_text;

verus! {

/// A parser's refusal of a text that is not JSON.
#[verifier::external_type_specification]
#[verifier::external_body]
pub struct ExJsonError(serde_json::Error);

/// A document as the parser holds it.
#[verifier::external_type_specification]
#[verifier::external_body]
pub struct ExJsonValue(serde_json::Value);

/// A JSON document. An object keeps its members as pairs of key and value,
/// in the parser's order; a number keeps the text it is printed as.
#[derive(Debug, PartialEq, Eq)]
pub enum Json {
    Null,
    Bool(bool),
    Number(String),
    String(String),
    Array(Vec<Json>),
    Object(Vec<(String, Json)>),
}

/// What a JSON document is.
pub enum JsonValue {
    Null,
    Bool(bool),
    Number(Seq<char>),
    String(Seq<char>),
    Array(Seq<JsonValue>),
    Object(Seq<MemberValue>),
}

/// What a member of an object is.
pub struct MemberValue {
    pub key: Seq<char>,
    pub value: JsonValue,
}

impl View for Json {
    type V = JsonValue;

    open spec fn view(&self) -> JsonValue
        decreases self,
    {
        match self {
            Json::Null => JsonValue::Null,
            Json::Bool(b) => JsonValue::Bool(*b),
            Json::Number(digits) => JsonValue::Number(digits@),
            Json::String(text) => JsonValue::String(text@),
            Json::Array(items) => JsonValue::Array(
                Seq::new(
                    items@.len(),
                    |i: int|
                        if 0 <= i < items@.len() {
                            items@[i]@
                        } else {
                            JsonValue::Null
                        },
                ),
            ),
            Json::Object(members) => JsonValue::Object(
                Seq::new(
                    members@.len(),
                    |i: int|
                        if 0 <= i < members@.len() {
                            MemberValue { key: members@[i].0@, value: members@[i].1@ }
                        } else {
                            MemberValue { key: Seq::empty(), value: JsonValue::Null }
                        },
                ),
            ),
        }
    }
}

/// The document that `serde_json::from_slice` reads from `bytes`, or `None`
/// where it refuses them.
pub uninterp spec fn json_parse(bytes: Seq<u8>) -> Option<JsonValue>;

/// The value of the first member named `key` among `members`.
pub open spec fn lookup(members: Seq<MemberValue>, key: Seq<char>) -> Option<JsonValue>
    decreases members.len(),
{
    if members.len() == 0 {
        None
    } else if members[0].key == key {
        Some(members[0].value)
    } else {
        lookup(members.drop_first(), key)
    }
}

impl JsonValue {
    /// The member `key` of an object; nothing for a missing key or for a
    /// document that is no object.
    pub open spec fn member(self, key: Seq<char>) -> Option<JsonValue> {
        match self {
            JsonValue::Object(members) => lookup(members, key),
            _ => None,
        }
    }

    /// The element at `index` of an array; nothing past its end or for a
    /// document that is no array.
    pub open spec fn element(self, index: int) -> Option<JsonValue> {
        match self {
            JsonValue::Array(items) => if 0 <= index < items.len() {
                Some(items[index])
            } else {
                None
            },
            _ => None,
        }
    }

    /// The characters of a string; nothing for any other document.
    pub open spec fn text(self) -> Option<Seq<char>> {
        match self {
            JsonValue::String(text) => Some(text),
            _ => None,
        }
    }
}

/// The view of a document that may be absent.
pub open spec fn found_view(found: Option<&Json>) -> Option<JsonValue> {
    match found {
        Some(document) => Some(document@),
        None => None,
    }
}

impl Json {
    /// Looks a member up by its key.
    pub fn get(&self, key: &str) -> (found: Option<&Json>)
        ensures
            found_view(found) == self@.member(key@),
    {
        match self {
            Json::Object(members) => {
                let ghost entries = self@->Object_0;
                let mut i: usize = 0;
                assert(entries.skip(0) == entries);
                while i < members.len()
                    invariant
                        i <= members.len(),
                        self@ == JsonValue::Object(entries),
                        entries.len() == members@.len(),
                        forall|k: int|
                            0 <= k < members@.len() ==> entries[k] == (MemberValue {
                                key: members@[k].0@,
                                value: members@[k].1@,
                            }),
                        self@.member(key@) == lookup(entries.skip(i as int), key@),
                    decreases members.len() - i,
                {
                    proof {
                        let rest = entries.skip(i as int);
                        assert(rest.drop_first() == entries.skip(i + 1));
                    }
                    if same_text(members[i].0.as_str(), key) {
                        return Some(&members[i].1);
                    }
                    i += 1;
                }
                None
            },
            _ => None,
        }
    }

    /// Takes the element at `index`.
    pub fn at(&self, index: usize) -> (found: Option<&Json>)
        ensures
            found_view(found) == self@.element(index as int),
    {
        match self {
            Json::Array(items) => if index < items.len() {
                Some(&items[index])
            } else {
                None
            },
            _ => None,
        }
    }

    /// Reads a string's characters.
    pub fn as_str(&self) -> (found: Option<&str>)
        ensures
            match found {
                Some(text) => self@.text() == Some(text@),
                None => self@.text() is None,
            },
    {
        match self {
            Json::String(text) => Some(text.as_str()),
            _ => None,
        }
    }

    /// Parses `bytes` as one JSON document.
    pub fn parse(bytes: &[u8]) -> (parsed: Option<Json>)
        ensures
            match parsed {
                Some(document) => json_parse(bytes@) == Some(document@),
                None => json_parse(bytes@) is None,
            },
    {
        match read_document(bytes) {
            Ok(document) => Some(document),
            Err(_) => None,
        }
    }
}

/// Turns a `serde_json::Value` into a `Json`, variant for variant and
/// member for member, in the order in which the value's map hands them out.
/// A number is kept as the text that `serde_json::Number` prints.
#[verifier::external_body]
fn json_of_value(value: serde_json::Value) -> Json {
    match value {
        serde_json::Value::Null => Json::Null,
        serde_json::Value::Bool(b) => Json::Bool(b),
        serde_json::Value::Number(n) => Json::Number(n.to_string()),
        serde_json::Value::String(s) => Json::String(s),
        serde_json::Value::Array(items) => {
            Json::Array(items.into_iter().map(json_of_value).collect())
        },
        serde_json::Value::Object(members) => {
            Json::Object(members.into_iter().map(|(k, v)| (k, json_of_value(v))).collect())
        },
    }
}

/// `serde_json::from_slice`, asked for a `serde_json::Value`: the document
/// that the bytes spell, or the parser's error where they are not exactly
/// one JSON document. The outcome depends on the bytes alone.
#[verifier::external_body]
fn read_document(bytes: &[u8]) -> (read: Result<Json, serde_json::Error>)
    ensures
        match read {
            Ok(document) => json_parse(bytes@) == Some(document@),
            Err(_) => json_parse(bytes@) is None,
        },
{
    serde_json::from_slice::<serde_json::Value>(bytes).map(json_of_value)
}

} // verus!
