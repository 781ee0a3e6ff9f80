//! Plain JSON values, as they occur inside schemas (`enum`, `default`, examples).
use vstd::prelude::*;

verus! {

/// A 64-bit floating-point number, held as its IEEE 754 bit pattern.
///
/// The library never computes with such numbers; it only carries them from a
/// source schema to the converted one.
#[derive(Clone, Copy, Debug, PartialEq, Eq, Structural)]
pub struct FloatBits {
    pub bits: u64,
}

/// A JSON number, split the way JSON parsers keep it.
#[derive(Clone, Copy, Debug, PartialEq, Eq, Structural)]
pub enum JsonNumber {
    /// A non-negative integer.
    PosInt(u64),
    /// A negative integer.
    NegInt(i64),
    /// Any other number.
    Float(FloatBits),
}

impl JsonNumber {
    /// Whether the number is integral (it fits an `i64` or a `u64`).
    pub open spec fn spec_is_integer(self) -> bool {
        !(self is Float)
    }

    pub fn is_integer(&self) -> (r: bool)
        ensures
            r == self.spec_is_integer(),
    {
        match self {
            JsonNumber::Float(_) => false,
            _ => true,
        }
    }
}

/// A JSON value.
///
/// Arrays and objects are held as their JSON text: schemas carry such values
/// (in `enum`, `default` or an example) without looking inside them.
#[derive(Debug)]
pub enum JsonValue {
    Null,
    Bool(bool),
    Number(JsonNumber),
    String(String),
    /// An array, as JSON text.
    Array(String),
    /// An object, as JSON text.
    Object(String),
}

impl JsonValue {
    /// Returns a value equal to `self`.
    pub fn deep_copy(&self) -> (r: JsonValue)
        ensures
            r == *self,
    {
        match self {
            JsonValue::Null => JsonValue::Null,
            JsonValue::Bool(b) => JsonValue::Bool(*b),
            JsonValue::Number(n) => JsonValue::Number(*n),
            JsonValue::String(s) => JsonValue::String(s.clone()),
            JsonValue::Array(t) => JsonValue::Array(t.clone()),
            JsonValue::Object(t) => JsonValue::Object(t.clone()),
        }
    }
}

/// Copies an optional value.
pub fn copy_opt_value(v: &Option<JsonValue>) -> (r: Option<JsonValue>)
    ensures
        r == *v,
{
    match v {
        Some(x) => Some(x.deep_copy()),
        None => None,
    }
}

/// Copies an optional string.
pub fn copy_opt_string(s: &Option<String>) -> (r: Option<String>)
    ensures
        r == *s,
{
    match s {
        Some(x) => Some(x.clone()),
        None => None,
    }
}

/// Copies a list of named values.
pub fn copy_members(m: &Vec<(String, JsonValue)>) -> (r: Vec<(String, JsonValue)>)
    ensures
        r@ == m@,
{
    let mut out: Vec<(String, JsonValue)> = Vec::new();
    let mut i: usize = 0;
    while i < m.len()
        invariant
            i <= m@.len(),
            out@ == m@.subrange(0, i as int),
        decreases m@.len() - i,
    {
        out.push((m[i].0.clone(), m[i].1.deep_copy()));
        i = i + 1;
        proof {
            assert(out@ =~= m@.subrange(0, i as int));
        }
    }
    proof {
        assert(out@ =~= m@);
    }
    out
}

/// Copies a list of strings.
pub fn copy_strings(m: &Vec<String>) -> (r: Vec<String>)
    ensures
        r@ == m@,
{
    let mut out: Vec<String> = Vec::new();
    let mut i: usize = 0;
    while i < m.len()
        invariant
            i <= m@.len(),
            out@ == m@.subrange(0, i as int),
        decreases m@.len() - i,
    {
        out.push(m[i].clone());
        i = i + 1;
        proof {
            assert(out@ =~= m@.subrange(0, i as int));
        }
    }
    proof {
        assert(out@ =~= m@);
    }
    out
}

} // verus!
