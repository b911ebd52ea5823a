//! A JSON value model: the data that travels in protocol messages.
use vstd::prelude::*;

use crate::map::StrMap;

verus! {

/// A JSON number as the wire carries it: a non-negative integer, a negative
/// integer, or a floating-point value held by its IEEE-754 bit pattern.
#[derive(Debug, Clone, Copy, PartialEq, Eq, Structural)]
pub enum JsonNumber {
    PosInt(u64),
    NegInt(i64),
    FloatBits(u64),
}

/// A JSON value.
#[derive(Debug)]
pub enum JsonValue {
    Null,
    Bool(bool),
    Number(JsonNumber),
    String(String),
    Array(Vec<JsonValue>),
    Object(StrMap<JsonValue>),
}

/// The integer a JSON number denotes when read as an `i64`, if it is one.
pub open spec fn number_as_i64(n: JsonNumber) -> Option<i64> {
    match n {
        JsonNumber::PosInt(u) => if u <= i64::MAX {
            Some(u as i64)
        } else {
            None
        },
        JsonNumber::NegInt(i) => Some(i),
        JsonNumber::FloatBits(_) => None,
    }
}

/// Law: a JSON integer is read as an `i64` exactly when it fits, and then as
/// its own value; a floating-point number never is.
pub proof fn law_i64_reads_fitting_integers(u: u64, i: i64, bits: u64)
    ensures
        u <= i64::MAX ==> number_as_i64(JsonNumber::PosInt(u)) == Some(u as i64),
        u <= i64::MAX ==> (number_as_i64(JsonNumber::PosInt(u)).unwrap() as int == u as int),
        u > i64::MAX ==> number_as_i64(JsonNumber::PosInt(u)) is None,
        number_as_i64(JsonNumber::NegInt(i)) == Some(i),
        number_as_i64(JsonNumber::FloatBits(bits)) is None,
{
}

impl JsonValue {
    /// Whether this value is an object.
    pub open spec fn is_object(self) -> bool {
        self is Object
    }

    /// An empty JSON object, `{}`.
    pub fn empty_object() -> (v: JsonValue)
        ensures
            v matches JsonValue::Object(m) && m.wf() && m.entries().len() == 0,
    {
        JsonValue::Object(StrMap::new())
    }

    /// A JSON string built from `s`.
    pub fn from_str(s: &str) -> (v: JsonValue)
        ensures
            v matches JsonValue::String(t) && t@ == s@,
    {
        JsonValue::String(s.to_string())
    }

    /// The object this value holds, if it is one.
    pub fn as_object(&self) -> (r: Option<&StrMap<JsonValue>>)
        ensures
            match *self {
                JsonValue::Object(m) => r == Some(&m),
                _ => r is None,
            },
    {
        match self {
            JsonValue::Object(m) => Some(m),
            _ => None,
        }
    }

    /// The array this value holds, if it is one.
    pub fn as_array(&self) -> (r: Option<&Vec<JsonValue>>)
        ensures
            match *self {
                JsonValue::Array(a) => r == Some(&a),
                _ => r is None,
            },
    {
        match self {
            JsonValue::Array(a) => Some(a),
            _ => None,
        }
    }

    /// The text of the string this value holds, if it is one.
    pub fn as_str(&self) -> (r: Option<&str>)
        ensures
            match *self {
                JsonValue::String(s) => r matches Some(t) && t@ == s@,
                _ => r is None,
            },
    {
        match self {
            JsonValue::String(s) => Some(s.as_str()),
            _ => None,
        }
    }

    /// The member `key` of this value, if it is an object that has one.
    pub fn get(&self, key: &str) -> (r: Option<&JsonValue>)
        requires
            *self matches JsonValue::Object(m) ==> m.wf(),
        ensures
            match *self {
                JsonValue::Object(m) => match m.spec_get(key@) {
                    Some(v) => r == Some(&v),
                    None => r is None,
                },
                _ => r is None,
            },
    {
        match self {
            JsonValue::Object(m) => m.get(key),
            _ => None,
        }
    }

    /// This value read as a string: present only for a JSON string.
    pub fn to_string_value(&self) -> (r: Option<String>)
        ensures
            match *self {
                JsonValue::String(s) => r matches Some(t) && t@ == s@,
                _ => r is None,
            },
    {
        match self {
            JsonValue::String(s) => Some(s.clone()),
            _ => None,
        }
    }

    /// This value read as an `i64`: present only for a JSON integer that fits.
    pub fn to_i64_value(&self) -> (r: Option<i64>)
        ensures
            match *self {
                JsonValue::Number(n) => r == number_as_i64(n),
                _ => r is None,
            },
    {
        match self {
            JsonValue::Number(JsonNumber::PosInt(u)) => {
                if *u <= 0x7fff_ffff_ffff_ffffu64 {
                    Some(*u as i64)
                } else {
                    None
                }
            },
            JsonValue::Number(JsonNumber::NegInt(i)) => Some(*i),
            _ => None,
        }
    }

    /// This value read as a `bool`: present only for a JSON boolean.
    pub fn to_bool_value(&self) -> (r: Option<bool>)
        ensures
            match *self {
                JsonValue::Bool(b) => r == Some(b),
                _ => r is None,
            },
    {
        match self {
            JsonValue::Bool(b) => Some(*b),
            _ => None,
        }
    }

    /// Whether this value is `null`.
    pub fn is_null(&self) -> (b: bool)
        ensures
            b == (*self is Null),
    {
        match self {
            JsonValue::Null => true,
            _ => false,
        }
    }
}

} // verus!
