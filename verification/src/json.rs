//! A JSON document model, holding every JSON value as plain data.
//!
//! An object is a sequence of entries; its meaning is the map those entries
//! build when inserted in order, a later entry replacing an earlier one with
//! the same key.

use vstd::prelude::*;

verus! {

/// A JSON number.
#[derive(Debug, PartialEq)]
pub enum JsonNumber {
    /// A non-negative integer.
    PosInt(u64),
    /// A negative integer.
    NegInt(i64),
    /// Any other number, held by its decimal text.
    Decimal(String),
}

/// A JSON value.
#[derive(Debug, PartialEq)]
pub enum JsonValue {
    Null,
    Bool(bool),
    Number(JsonNumber),
    String(String),
    Array(Vec<JsonValue>),
    Object(Vec<(String, JsonValue)>),
}

/// The map that a sequence of object entries builds.
pub open spec fn entries_map(entries: Seq<(String, JsonValue)>) -> Map<Seq<char>, JsonValue>
    decreases entries.len(),
{
    if entries.len() == 0 {
        Map::empty()
    } else {
        entries_map(entries.drop_last()).insert(entries.last().0@, entries.last().1)
    }
}

/// Adding an entry at the end of an object inserts it into the map.
pub proof fn lemma_entries_map_push(entries: Seq<(String, JsonValue)>, entry: (String, JsonValue))
    ensures
        entries_map(entries.push(entry)) == entries_map(entries).insert(entry.0@, entry.1),
{
    assert(entries.push(entry).drop_last() =~= entries);
}

/// The keys of an object (empty for any other value).
pub open spec fn keys(value: JsonValue) -> Set<Seq<char>> {
    match value {
        JsonValue::Object(entries) => entries_map(entries@).dom(),
        _ => Set::empty(),
    }
}

/// The value an object holds under `key`.
pub open spec fn field(value: JsonValue, key: Seq<char>) -> Option<JsonValue> {
    match value {
        JsonValue::Object(entries) => if entries_map(entries@).contains_key(key) {
            Some(entries_map(entries@)[key])
        } else {
            None
        },
        _ => None,
    }
}

/// The text of a JSON string.
pub open spec fn string_of(value: JsonValue) -> Option<Seq<char>> {
    match value {
        JsonValue::String(s) => Some(s@),
        _ => None,
    }
}

/// The integer a JSON number denotes, where it is one.
pub open spec fn integer_of(value: JsonValue) -> Option<int> {
    match value {
        JsonValue::Number(JsonNumber::PosInt(n)) => Some(n as int),
        JsonValue::Number(JsonNumber::NegInt(n)) => Some(n as int),
        _ => None,
    }
}

/// The name of a value's kind, as an error message gives it.
pub open spec fn kind_name(value: JsonValue) -> Seq<char> {
    match value {
        JsonValue::Null => "null"@,
        JsonValue::Bool(_) => "boolean"@,
        JsonValue::Number(_) => "number"@,
        JsonValue::String(_) => "string"@,
        JsonValue::Array(_) => "array"@,
        JsonValue::Object(_) => "object"@,
    }
}

impl JsonValue {
    /// The JSON number for a 32-bit integer: a non-negative one is held as
    /// `PosInt`, a negative one as `NegInt`.
    pub fn from_i32(n: i32) -> (value: JsonValue)
        ensures
            integer_of(value) == Some(n as int),
            n >= 0 ==> value == JsonValue::Number(JsonNumber::PosInt(n as u64)),
            n < 0 ==> value == JsonValue::Number(JsonNumber::NegInt(n as i64)),
    {
        if n < 0 {
            JsonValue::Number(JsonNumber::NegInt(n as i64))
        } else {
            JsonValue::Number(JsonNumber::PosInt(n as u64))
        }
    }

    /// The name of this value's kind.
    pub fn kind(&self) -> (name: &'static str)
        ensures
            name@ == kind_name(*self),
    {
        proof {
            reveal_strlit("null");
            reveal_strlit("boolean");
            reveal_strlit("number");
            reveal_strlit("string");
            reveal_strlit("array");
            reveal_strlit("object");
        }
        match self {
            JsonValue::Null => "null",
            JsonValue::Bool(_) => "boolean",
            JsonValue::Number(_) => "number",
            JsonValue::String(_) => "string",
            JsonValue::Array(_) => "array",
            JsonValue::Object(_) => "object",
        }
    }
}

} // verus!
