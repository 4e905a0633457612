//! JSON values as the Codex app-server sends them, how a line of its output
//! is read as one, and the lookups that the protocol code makes on them.
use serde_json::Value;
use vstd::prelude::*;

verus! {

/// A JSON number: its text, and its value as an unsigned and as a signed
/// 64-bit integer where it is such an integer.
#[derive(Debug)]
pub struct JsonNumber {
    pub text: String,
    pub unsigned: Option<u64>,
    pub signed: Option<i64>,
}

/// A JSON value. The entries of an object come in the order the parser
/// yields them, one entry per key.
#[derive(Debug)]
pub enum Json {
    Null,
    Bool(bool),
    Number(JsonNumber),
    Str(String),
    Array(Vec<Json>),
    Object(Vec<(String, Json)>),
}

/// The value stored under `key` among `entries`: that of the first entry
/// with this key.
pub open spec fn entry_value(entries: Seq<(String, Json)>, key: Seq<char>) -> Option<Json>
    decreases entries.len(),
{
    if entries.len() == 0 {
        None
    } else if entries[0].0@ == key {
        Some(entries[0].1)
    } else {
        entry_value(entries.drop_first(), key)
    }
}

/// `value[key]` for an object, nothing for any other value.
pub open spec fn json_get(value: Json, key: Seq<char>) -> Option<Json> {
    match value {
        Json::Object(entries) => entry_value(entries@, key),
        _ => None,
    }
}

/// The text of a string value.
pub open spec fn json_str(value: Option<Json>) -> Option<Seq<char>> {
    match value {
        Some(Json::Str(s)) => Some(s@),
        _ => None,
    }
}

/// The value of a number that is a non-negative integer within `u64`.
pub open spec fn json_u64(value: Option<Json>) -> Option<u64> {
    match value {
        Some(Json::Number(n)) => n.unsigned,
        _ => None,
    }
}

/// The value of a number that is an integer within `i64`.
pub open spec fn json_i64(value: Option<Json>) -> Option<i64> {
    match value {
        Some(Json::Number(n)) => n.signed,
        _ => None,
    }
}

/// Present and not `null`.
pub open spec fn present(value: Option<Json>) -> bool {
    value is Some && !(value->0 is Null)
}

/// The same optional value, seen through a reference.
pub open spec fn same_value(r: Option<&Json>, v: Option<Json>) -> bool {
    match r {
        Some(x) => v == Some(*x),
        None => v is None,
    }
}

proof fn lemma_entry_value_skip(entries: Seq<(String, Json)>, key: Seq<char>, i: int)
    requires
        0 <= i < entries.len(),
        entries[i].0@ != key,
    ensures
        entry_value(entries.skip(i), key) == entry_value(entries.skip(i + 1), key),
{
    assert(entries.skip(i).drop_first() =~= entries.skip(i + 1));
}

impl Json {
    /// The value stored under `key`, when `self` is an object holding it.
    pub fn get<'a>(&'a self, key: &str) -> (r: Option<&'a Json>)
        ensures
            same_value(r, json_get(*self, key@)),
    {
        match self {
            Json::Object(entries) => {
                let mut i: usize = 0;
                assert(entries@.skip(0) =~= entries@);
                while i < entries.len()
                    invariant
                        i <= entries@.len(),
                        json_get(*self, key@) == entry_value(entries@, key@),
                        entry_value(entries@, key@) == entry_value(entries@.skip(i as int), key@),
                    decreases entries@.len() - i,
                {
                    if crate::text::str_equals(entries[i].0.as_str(), key) {
                        assert(entries@.skip(i as int)[0] == entries@[i as int]);
                        return Some(&entries[i].1);
                    }
                    proof {
                        lemma_entry_value_skip(entries@, key@, i as int);
                    }
                    i = i + 1;
                }
                None
            },
            _ => None,
        }
    }

    /// The text of a string value.
    pub fn as_str(&self) -> (r: Option<&String>)
        ensures
            match r {
                Some(s) => json_str(Some(*self)) == Some(s@),
                None => json_str(Some(*self)) is None,
            },
    {
        match self {
            Json::Str(s) => Some(s),
            _ => None,
        }
    }

    /// The value of a number that is a non-negative integer within `u64`.
    pub fn as_u64(&self) -> (r: Option<u64>)
        ensures
            r == json_u64(Some(*self)),
    {
        match self {
            Json::Number(n) => n.unsigned,
            _ => None,
        }
    }

    /// The value of a number that is an integer within `i64`.
    pub fn as_i64(&self) -> (r: Option<i64>)
        ensures
            r == json_i64(Some(*self)),
    {
        match self {
            Json::Number(n) => n.signed,
            _ => None,
        }
    }

    pub fn is_null(&self) -> (r: bool)
        ensures
            r == (*self is Null),
    {
        match self {
            Json::Null => true,
            _ => false,
        }
    }
}

/// The value of `key` in `value`, when present and not `null`.
pub fn get_present<'a>(value: &'a Json, key: &str) -> (r: Option<&'a Json>)
    ensures
        same_value(
            r,
            if present(json_get(*value, key@)) {
                json_get(*value, key@)
            } else {
                None
            },
        ),
{
    match value.get(key) {
        Some(v) => {
            if v.is_null() {
                None
            } else {
                Some(v)
            }
        },
        None => None,
    }
}

/// The text stored under `key` in `value`, when it is a string.
pub fn get_str<'a>(value: &'a Json, key: &str) -> (r: Option<&'a String>)
    ensures
        match r {
            Some(s) => json_str(json_get(*value, key@)) == Some(s@),
            None => json_str(json_get(*value, key@)) is None,
        },
{
    match value.get(key) {
        Some(v) => v.as_str(),
        None => None,
    }
}

/// The number stored under `key` in `value`, when it is an integer within `u64`.
pub fn get_u64(value: &Json, key: &str) -> (r: Option<u64>)
    ensures
        r == json_u64(json_get(*value, key@)),
{
    match value.get(key) {
        Some(v) => v.as_u64(),
        None => None,
    }
}

/// The number stored under `key` in `value`, when it is an integer within `i64`.
pub fn get_i64(value: &Json, key: &str) -> (r: Option<i64>)
    ensures
        r == json_i64(json_get(*value, key@)),
{
    match value.get(key) {
        Some(v) => v.as_i64(),
        None => None,
    }
}

// ---------------------------------------------------------------------------
// Reading text as JSON

#[verifier::external_type_specification]
#[verifier::external_body]
pub struct ExJsonValue(serde_json::Value);

/// The JSON value that `serde_json` reads from `text`, nothing when the text
/// is not one JSON value (surrounding white space allowed).
pub uninterp spec fn json_of_text(text: Seq<char>) -> Option<Json>;

/// The message (`Display` of `serde_json::Error`) with which `serde_json`
/// refuses `text`.
pub uninterp spec fn json_error_text(text: Seq<char>) -> Seq<char>;

/// Calls `serde_json::from_str::<serde_json::Value>` and converts the value
/// one for one into a `Json` (with `json_from_value`), or the error into its
/// message. The contract only names the results: both are functions of the
/// text alone.
#[verifier::external_body]
pub(crate) fn parse_json_text(text: &str) -> (r: Result<Json, String>)
    ensures
        match r {
            Ok(v) => json_of_text(text@) == Some(v),
            Err(e) => json_of_text(text@) is None && e@ == json_error_text(text@),
        },
{
    match serde_json::from_str::<Value>(text) {
        Ok(value) => Ok(json_from_value(&value)),
        Err(error) => Err(error.to_string()),
    }
}

/// The conversion used inside `parse_json_text`: each variant of
/// `serde_json::Value` becomes the same variant of `Json`, a number keeping
/// its text and its `as_u64` and `as_i64` values. It promises nothing by
/// itself; what it yields is part of `json_of_text`.
#[verifier::external_body]
fn json_from_value(value: &Value) -> Json {
    match value {
        Value::Null => Json::Null,
        Value::Bool(b) => Json::Bool(*b),
        Value::Number(n) => Json::Number(
            JsonNumber { text: n.to_string(), unsigned: n.as_u64(), signed: n.as_i64() },
        ),
        Value::String(s) => Json::Str(s.clone()),
        Value::Array(items) => Json::Array(items.iter().map(json_from_value).collect()),
        Value::Object(entries) => Json::Object(
            entries.iter().map(|(key, item)| (key.clone(), json_from_value(item))).collect(),
        ),
    }
}

} // verus!
