//! A plain model of JSON documents, as the Monarch and bro services send
//! them, and the field reading that the typed records of this crate use.
//!
//! Objects keep their members in order; a key is looked up by its first
//! occurrence. A number is kept as its text, since nothing here computes
//! with one.
use vstd::prelude::*;
use crate::text::{str_eq, chars_of, parse_u64, parse_u64_chars};

verus! {

#[derive(Debug)]
pub enum JsonValue {
    Null,
    Bool(bool),
    /// A number, as the text that denotes it.
    Number(String),
    Str(String),
    Array(Vec<JsonValue>),
    Object(Vec<JsonMember>),
}

#[derive(Debug)]
pub struct JsonMember {
    pub key: String,
    pub value: JsonValue,
}

/// The value of the first member of `ms` whose key is `key`.
pub open spec fn member_value(ms: Seq<JsonMember>, key: Seq<char>) -> Option<JsonValue>
    decreases ms.len(),
{
    if ms.len() == 0 {
        None
    } else if ms[0].key@ == key {
        Some(ms[0].value)
    } else {
        member_value(ms.drop_first(), key)
    }
}

/// `value.get(key)`: the member `key` of an object; nothing for other values.
pub open spec fn field(v: JsonValue, key: Seq<char>) -> Option<JsonValue> {
    match v {
        JsonValue::Object(ms) => member_value(ms@, key),
        _ => None,
    }
}

/// `r` is a reference to the value `v` holds, or both are empty.
pub open spec fn refers_to(r: Option<&JsonValue>, v: Option<JsonValue>) -> bool {
    match r {
        Some(x) => v == Some(*x),
        None => v is None,
    }
}

/// A string value's text.
pub open spec fn string_value(v: JsonValue) -> Option<String> {
    match v {
        JsonValue::Str(s) => Some(s),
        _ => None,
    }
}

/// Where a field of a derived `Deserialize` struct comes from: the member of
/// that name in an object, or the element at the field's position in an
/// array (serde also reads a struct from a sequence of its fields).
pub open spec fn slot(v: JsonValue, name: Seq<char>, pos: int) -> Option<JsonValue> {
    match v {
        JsonValue::Object(ms) => member_value(ms@, name),
        JsonValue::Array(xs) => if 0 <= pos < xs@.len() {
            Some(xs@[pos])
        } else {
            None
        },
        _ => None,
    }
}

/// The value can hold a struct of `n` fields: an object, or an array of at
/// most `n` elements.
pub open spec fn record_shape(v: JsonValue, n: nat) -> bool {
    match v {
        JsonValue::Object(_) => true,
        JsonValue::Array(xs) => xs@.len() <= n,
        _ => false,
    }
}

/// A field of type `Option<T>` without a default reads as `None` when it is
/// missing from an object, but is an error when missing from an array.
pub open spec fn missing_option_ok(v: JsonValue) -> bool {
    v is Object
}

impl JsonValue {
    /// The member `key` of an object, taking the value apart.
    pub fn take(self, key: &str) -> (r: Option<JsonValue>)
        ensures
            r == field(self, key@),
    {
        match self {
            JsonValue::Object(mut ms) => match member_index(&ms, key) {
                Some(i) => Some(ms.remove(i).value),
                None => None,
            },
            _ => None,
        }
    }

    /// `value.get(key)`.
    pub fn get(&self, key: &str) -> (r: Option<&JsonValue>)
        ensures
            refers_to(r, field(*self, key@)),
    {
        match self {
            JsonValue::Object(ms) => lookup_member(ms, key),
            _ => None,
        }
    }

    pub fn is_null(&self) -> (r: bool)
        ensures
            r == (*self is Null),
    {
        match self {
            JsonValue::Null => true,
            _ => false,
        }
    }

    /// The text of a string value.
    pub fn as_string(&self) -> (r: Option<String>)
        ensures
            r == string_value(*self),
    {
        match self {
            JsonValue::Str(s) => Some(s.clone()),
            _ => None,
        }
    }

    /// A string value holding `s`.
    pub fn string(s: &str) -> (r: JsonValue)
        ensures
            r matches JsonValue::Str(t) && t@ == s@,
    {
        JsonValue::Str(s.to_owned())
    }
}

/// The first member of `ms` named `key`.
pub fn lookup_member<'a>(ms: &'a Vec<JsonMember>, key: &str) -> (r: Option<&'a JsonValue>)
    ensures
        refers_to(r, member_value(ms@, key@)),
{
    let mut i: usize = 0;
    assert(ms@.skip(0) =~= ms@);
    while i < ms.len()
        invariant
            i <= ms@.len(),
            member_value(ms@, key@) == member_value(ms@.skip(i as int), key@),
        decreases ms@.len() - i,
    {
        if str_eq(ms[i].key.as_str(), key) {
            return Some(&ms[i].value);
        }
        assert(ms@.skip(i as int).drop_first() =~= ms@.skip(i + 1));
        i = i + 1;
    }
    None
}

/// Position of the first member of `ms` named `key`.
pub fn member_index(ms: &Vec<JsonMember>, key: &str) -> (r: Option<usize>)
    ensures
        match r {
            Some(i) => i < ms@.len() && member_value(ms@, key@) == Some(ms@[i as int].value),
            None => member_value(ms@, key@) is None,
        },
{
    let mut i: usize = 0;
    assert(ms@.skip(0) =~= ms@);
    while i < ms.len()
        invariant
            i <= ms@.len(),
            member_value(ms@, key@) == member_value(ms@.skip(i as int), key@),
        decreases ms@.len() - i,
    {
        assert(ms@.skip(i as int)[0] == ms@[i as int]);
        if str_eq(ms[i].key.as_str(), key) {
            return Some(i);
        }
        assert(ms@.skip(i as int).drop_first() =~= ms@.skip(i + 1));
        i = i + 1;
    }
    None
}

/// The boolean a value holds, as `as_bool` reads it.
pub open spec fn bool_value(v: Option<JsonValue>) -> Option<bool> {
    match v {
        Some(JsonValue::Bool(b)) => Some(b),
        _ => None,
    }
}

/// A string value's text, as `as_str` reads it.
pub open spec fn text_value(v: Option<JsonValue>) -> Option<Seq<char>> {
    match v {
        Some(JsonValue::Str(s)) => Some(s@),
        _ => None,
    }
}

/// The unsigned integer a number holds, as `as_u64` reads it: a number
/// written in decimal digits only, within 64 bits.
pub open spec fn u64_value(v: Option<JsonValue>) -> Option<u64> {
    match v {
        Some(JsonValue::Number(t)) => if t@.len() > 0 && t@[0] == '+' {
            None
        } else {
            parse_u64(t@)
        },
        _ => None,
    }
}

/// `value.as_u64()`.
pub fn as_u64(v: Option<&JsonValue>) -> (r: Option<u64>)
    ensures
        r == u64_value(
            match v {
                Some(x) => Some(*x),
                None => None,
            },
        ),
{
    match v {
        Some(JsonValue::Number(t)) => {
            let cs = chars_of(t.as_str());
            if cs.len() > 0 && cs[0] == '+' {
                None
            } else {
                parse_u64_chars(&cs)
            }
        },
        _ => None,
    }
}

/// `value.as_bool()`.
pub fn as_bool(v: Option<&JsonValue>) -> (r: Option<bool>)
    ensures
        r == bool_value(
            match v {
                Some(x) => Some(*x),
                None => None,
            },
        ),
{
    match v {
        Some(JsonValue::Bool(b)) => Some(*b),
        _ => None,
    }
}

/// `value.as_str()`.
pub fn as_text(v: Option<&JsonValue>) -> (r: Option<&String>)
    ensures
        match r {
            Some(s) => text_value(
                match v {
                    Some(x) => Some(*x),
                    None => None,
                },
            ) == Some(s@),
            None => text_value(
                match v {
                    Some(x) => Some(*x),
                    None => None,
                },
            ) is None,
        },
{
    match v {
        Some(JsonValue::Str(s)) => Some(s),
        _ => None,
    }
}

/// The source of field `name`, at position `pos`, of a struct read from `v`.
pub fn record_slot<'a>(v: &'a JsonValue, name: &str, pos: usize) -> (r: Option<&'a JsonValue>)
    ensures
        refers_to(r, slot(*v, name@, pos as int)),
{
    match v {
        JsonValue::Object(ms) => lookup_member(ms, name),
        JsonValue::Array(xs) => if pos < xs.len() {
            Some(&xs[pos])
        } else {
            None
        },
        _ => None,
    }
}

/// Whether `v` can hold a struct of `n` fields.
pub fn has_record_shape(v: &JsonValue, n: usize) -> (r: bool)
    ensures
        r == record_shape(*v, n as nat),
{
    match v {
        JsonValue::Object(_) => true,
        JsonValue::Array(xs) => xs.len() <= n,
        _ => false,
    }
}

/// A member named `key` holding `value`.
pub fn member(key: &str, value: JsonValue) -> (r: JsonMember)
    ensures
        r.key@ == key@,
        r.value == value,
{
    JsonMember { key: key.to_owned(), value }
}

} // verus!
