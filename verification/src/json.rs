use vstd::prelude::*;
use crate::text::str_eq;

verus! {

/// A JSON number as job arguments and documents hold it.
#[derive(Clone, Debug, PartialEq)]
pub enum JsonNumber {
    /// An integer that fits `i64`.
    Int(i64),
    /// A non-negative integer above `i64::MAX`.
    Big(u64),
    /// Any other number, in its textual form.
    Decimal(String),
}

/// A JSON value: job arguments, activity bodies and fetched documents.
/// An object keeps its members in order; a key is looked up by its first occurrence.
#[derive(Debug)]
pub enum JsonValue {
    Null,
    Bool(bool),
    Number(JsonNumber),
    String(String),
    Array(Vec<JsonValue>),
    Object(Vec<(String, JsonValue)>),
}

/// The value of the first member named `key`.
pub open spec fn entries_get(entries: Seq<(String, JsonValue)>, key: Seq<char>) -> Option<JsonValue>
    decreases entries.len(),
{
    if entries.len() == 0 {
        None
    } else if entries[0].0@ == key {
        Some(entries[0].1)
    } else {
        entries_get(entries.drop_first(), key)
    }
}

/// `value[key]` of an object; nothing for any other value.
pub open spec fn json_get(value: JsonValue, key: Seq<char>) -> Option<JsonValue> {
    match value {
        JsonValue::Object(entries) => entries_get(entries@, key),
        _ => None,
    }
}

/// The text of a string value.
pub open spec fn json_str(value: JsonValue) -> Option<Seq<char>> {
    match value {
        JsonValue::String(s) => Some(s@),
        _ => None,
    }
}

/// The integer of a number that fits `i64`.
pub open spec fn json_i64(value: JsonValue) -> Option<i64> {
    match value {
        JsonValue::Number(JsonNumber::Int(i)) => Some(i),
        JsonValue::Number(JsonNumber::Big(u)) => if u <= i64::MAX {
            Some(u as i64)
        } else {
            None
        },
        _ => None,
    }
}

/// `json_get` followed by a string read.
pub open spec fn json_get_str(value: JsonValue, key: Seq<char>) -> Option<Seq<char>> {
    match json_get(value, key) {
        Some(v) => json_str(v),
        None => None,
    }
}

/// `json_get` followed by an integer read.
pub open spec fn json_get_i64(value: JsonValue, key: Seq<char>) -> Option<i64> {
    match json_get(value, key) {
        Some(v) => json_i64(v),
        None => None,
    }
}

/// The view of an optional JSON reference.
pub open spec fn opt_json(value: Option<&JsonValue>) -> Option<JsonValue> {
    match value {
        Some(v) => Some(*v),
        None => None,
    }
}

/// The view of an optional string slice.
pub open spec fn opt_text(value: Option<&str>) -> Option<Seq<char>> {
    match value {
        Some(s) => Some(s@),
        None => None,
    }
}

impl JsonValue {
    /// The value of the member `key` of an object.
    pub fn get(&self, key: &str) -> (member: Option<&JsonValue>)
        ensures
            opt_json(member) == json_get(*self, key@),
    {
        match self {
            JsonValue::Object(entries) => {
                let mut i: usize = 0;
                assert(entries@.skip(0) =~= entries@);
                while i < entries.len()
                    invariant
                        i <= entries@.len(),
                        json_get(*self, key@) == entries_get(entries@, key@),
                        entries_get(entries@, key@) == entries_get(entries@.skip(i as int), key@),
                    decreases entries@.len() - i,
                {
                    assert(entries@.skip(i as int).drop_first() =~= entries@.skip(i + 1));
                    if str_eq(entries[i].0.as_str(), key) {
                        let ghost rest = entries@.skip(i as int);
                        assert(rest.len() > 0);
                        assert(rest[0] == entries@[i as int]);
                        assert(rest[0].0@ == key@);
                        assert(entries_get(rest, key@) == Some(entries@[i as int].1));
                        return Some(&entries[i].1);
                    }
                    i = i + 1;
                }
                assert(entries@.skip(i as int).len() == 0);
                None
            },
            _ => None,
        }
    }

    /// The text of a string value.
    pub fn as_str(&self) -> (text: Option<&str>)
        ensures
            opt_text(text) == json_str(*self),
    {
        match self {
            JsonValue::String(s) => Some(s.as_str()),
            _ => None,
        }
    }

    /// The integer of a number that fits `i64`.
    pub fn as_i64(&self) -> (i: Option<i64>)
        ensures
            i == json_i64(*self),
    {
        match self {
            JsonValue::Number(JsonNumber::Int(i)) => Some(*i),
            JsonValue::Number(JsonNumber::Big(u)) => if *u <= i64::MAX as u64 {
                Some(*u as i64)
            } else {
                None
            },
            _ => None,
        }
    }

    /// Whether the value is `null`.
    pub fn is_null(&self) -> (r: bool)
        ensures
            r == (*self is Null),
    {
        match self {
            JsonValue::Null => true,
            _ => false,
        }
    }

    /// The text of the string member `key`.
    pub fn member_str(&self, key: &str) -> (text: Option<&str>)
        ensures
            opt_text(text) == json_get_str(*self, key@),
    {
        match self.get(key) {
            Some(v) => v.as_str(),
            None => None,
        }
    }

    /// The integer of the member `key`, when it fits `i64`.
    pub fn member_i64(&self, key: &str) -> (i: Option<i64>)
        ensures
            i == json_get_i64(*self, key@),
    {
        match self.get(key) {
            Some(v) => v.as_i64(),
            None => None,
        }
    }

    /// A string value holding `text`.
    pub fn text(text: &str) -> (v: JsonValue)
        ensures
            json_str(v) == Some(text@),
    {
        JsonValue::String(text.to_owned())
    }
}

} // verus!
