//! A structured value as the daemon sends it, and lookups into it.
use vstd::prelude::*;

use crate::text::opt_string_chars;

verus! {

/// A JSON value. A number carries its value when it is a non-negative
/// integer that fits in 64 bits.
pub enum JsonValue {
    Null,
    Bool(bool),
    Number(Option<u64>),
    Str(String),
    Array(Vec<JsonValue>),
    Object(Vec<(String, JsonValue)>),
}

/// The value of the first field named `key`.
pub open spec fn field_in(fields: Seq<(String, JsonValue)>, key: Seq<char>) -> Option<JsonValue>
    decreases fields.len(),
{
    if fields.len() == 0 {
        None
    } else if fields[0].0@ == key {
        Some(fields[0].1)
    } else {
        field_in(fields.drop_first(), key)
    }
}

/// An optional reference seen as an optional value.
pub open spec fn deref_opt<T>(o: Option<&T>) -> Option<T> {
    match o {
        Some(v) => Some(*v),
        None => None,
    }
}

impl JsonValue {
    /// The field `key` of an object; nothing for any other value.
    pub open spec fn field(self, key: Seq<char>) -> Option<JsonValue> {
        match self {
            JsonValue::Object(fields) => field_in(fields@, key),
            _ => None,
        }
    }

    /// The characters of a string value.
    pub open spec fn text(self) -> Option<Seq<char>> {
        match self {
            JsonValue::Str(s) => Some(s@),
            _ => None,
        }
    }

    /// The elements of an array value.
    pub open spec fn elements(self) -> Option<Seq<JsonValue>> {
        match self {
            JsonValue::Array(items) => Some(items@),
            _ => None,
        }
    }

    /// The value of a number that is a non-negative 64-bit integer.
    pub open spec fn unsigned(self) -> Option<u64> {
        match self {
            JsonValue::Number(n) => n,
            _ => None,
        }
    }

    /// The field `key` of an object.
    pub fn get(&self, key: &str) -> (r: Option<&JsonValue>)
        ensures
            deref_opt(r) == self.field(key@),
    {
        match self {
            JsonValue::Object(fields) => {
                let k = String::from_str(key);
                let mut i: usize = 0;
                assert(self.field(key@) == field_in(fields@, key@));
                assert(fields@.subrange(0, fields@.len() as int) =~= fields@);
                while i < fields.len()
                    invariant
                        i <= fields@.len(),
                        k@ == key@,
                        self.field(key@) == field_in(fields@.subrange(i as int, fields@.len() as int), key@),
                    decreases fields.len() - i,
                {
                    let entry = &fields[i];
                    assert(fields@.subrange(i as int, fields@.len() as int).drop_first() =~= fields@.subrange(i + 1, fields@.len() as int));
                    assert(fields@.subrange(i as int, fields@.len() as int)[0] == fields@[i as int]);
                    if entry.0 == k {
                        assert(field_in(fields@.subrange(i as int, fields@.len() as int), key@) == Some(fields@[i as int].1));
                        return Some(&entry.1);
                    }
                    i = i + 1;
                }
                None
            },
            _ => None,
        }
    }

    /// The text of a string value.
    pub fn as_str(&self) -> (r: Option<&str>)
        ensures
            match r {
                Some(s) => self.text() == Some(s@),
                None => self.text() is None,
            },
    {
        match self {
            JsonValue::Str(s) => Some(s.as_str()),
            _ => None,
        }
    }

    /// The elements of an array value.
    pub fn as_array(&self) -> (r: Option<&Vec<JsonValue>>)
        ensures
            match r {
                Some(v) => self.elements() == Some(v@),
                None => self.elements() is None,
            },
    {
        match self {
            JsonValue::Array(items) => Some(items),
            _ => None,
        }
    }

    /// The value of a number that is a non-negative 64-bit integer.
    pub fn as_u64(&self) -> (r: Option<u64>)
        ensures
            r == self.unsigned(),
    {
        match self {
            JsonValue::Number(n) => *n,
            _ => None,
        }
    }
}

/// The text of field `key`, when that field is a string.
pub open spec fn text_field(v: JsonValue, key: Seq<char>) -> Option<Seq<char>> {
    match v.field(key) {
        Some(f) => f.text(),
        None => None,
    }
}

/// The first of the fields `a`, `b` that is present.
pub open spec fn first_field(v: JsonValue, a: Seq<char>, b: Seq<char>) -> Option<JsonValue> {
    match v.field(a) {
        Some(f) => Some(f),
        None => v.field(b),
    }
}

/// The text of the first present field among `a`, `b`, when it is a string.
pub open spec fn text_of_first(v: JsonValue, a: Seq<char>, b: Seq<char>) -> Option<Seq<char>> {
    match first_field(v, a, b) {
        Some(f) => f.text(),
        None => None,
    }
}

/// The text of the first present field among `a`, `b`, `c`, when it is a string.
pub open spec fn text_of_first3(v: JsonValue, a: Seq<char>, b: Seq<char>, c: Seq<char>) -> Option<
    Seq<char>,
> {
    match v.field(a) {
        Some(f) => f.text(),
        None => text_of_first(v, b, c),
    }
}

/// The text of field `key`, when that field is a string.
pub fn get_text<'a>(v: &'a JsonValue, key: &str) -> (r: Option<&'a str>)
    ensures
        opt_text(r) == text_field(*v, key@),
{
    match v.get(key) {
        Some(f) => f.as_str(),
        None => None,
    }
}

/// The text of the first present field among `a`, `b`, when it is a string.
pub fn get_text_of_first<'a>(v: &'a JsonValue, a: &str, b: &str) -> (r: Option<&'a str>)
    ensures
        opt_text(r) == text_of_first(*v, a@, b@),
{
    match v.get(a) {
        Some(f) => f.as_str(),
        None => match v.get(b) {
            Some(f) => f.as_str(),
            None => None,
        },
    }
}

/// The text of the first present field among `a`, `b`, `c`, when it is a string.
pub fn get_text_of_first3<'a>(v: &'a JsonValue, a: &str, b: &str, c: &str) -> (r: Option<&'a str>)
    ensures
        opt_text(r) == text_of_first3(*v, a@, b@, c@),
{
    match v.get(a) {
        Some(f) => f.as_str(),
        None => get_text_of_first(v, b, c),
    }
}

/// The value of field `key`, when it is a non-negative 64-bit integer.
pub open spec fn u64_field(v: JsonValue, key: Seq<char>) -> Option<u64> {
    match v.field(key) {
        Some(f) => f.unsigned(),
        None => None,
    }
}

/// The value of the first present field among `a`, `b`, when it is a
/// non-negative 64-bit integer.
pub open spec fn u64_of_first(v: JsonValue, a: Seq<char>, b: Seq<char>) -> Option<u64> {
    match first_field(v, a, b) {
        Some(f) => f.unsigned(),
        None => None,
    }
}

/// The value of field `key`, when it is a non-negative 64-bit integer.
pub fn get_u64(v: &JsonValue, key: &str) -> (r: Option<u64>)
    ensures
        r == u64_field(*v, key@),
{
    match v.get(key) {
        Some(f) => f.as_u64(),
        None => None,
    }
}

/// The value of the first present field among `a`, `b`, when it is a
/// non-negative 64-bit integer.
pub fn get_u64_of_first(v: &JsonValue, a: &str, b: &str) -> (r: Option<u64>)
    ensures
        r == u64_of_first(*v, a@, b@),
{
    match v.get(a) {
        Some(f) => f.as_u64(),
        None => match v.get(b) {
            Some(f) => f.as_u64(),
            None => None,
        },
    }
}

/// A copy of an optional text.
pub fn owned_text(s: Option<&str>) -> (r: Option<String>)
    ensures
        opt_string_chars(r) == opt_text(s),
{
    match s {
        Some(v) => Some(String::from_str(v)),
        None => None,
    }
}

/// The characters of an optional text.
pub open spec fn opt_text(s: Option<&str>) -> Option<Seq<char>> {
    match s {
        Some(v) => Some(v@),
        None => None,
    }
}

} // verus!
