//! The wire's structured values.
//!
//! One request or response is one JSON value. `JsonVal` models exactly what
//! the protocol reads and writes: scalars, arrays, and objects as ordered
//! field lists. A number is kept as its exact decimal parts (sign, mantissa,
//! exponent); the scalar bridge decides here, in integer arithmetic, whether
//! it becomes an integer or a float `Value`.

use vstd::prelude::*;
use crate::error::Error;
use crate::number::number_value;
use crate::number::number_to_value;
use crate::value::Value;

verus! {

/// One JSON value, as the protocol sees it.
///
/// An object is an ordered list of fields; a lookup takes the first field
/// with the asked-for key. A number is `(positive, mantissa, exponent)`,
/// meaning `±mantissa · 10^exponent`.
#[derive(Debug)]
pub enum JsonVal {
    Null,
    Bool(bool),
    Num(bool, u64, i16),
    Str(String),
    Arr(Vec<JsonVal>),
    Obj(Vec<(String, JsonVal)>),
}

/// The first field of `fields` whose key reads `key`, if any.
pub open spec fn obj_lookup(fields: Seq<(String, JsonVal)>, key: Seq<char>) -> Option<JsonVal>
    decreases fields.len(),
{
    if fields.len() == 0 {
        None
    } else if fields[0].0@ == key {
        Some(fields[0].1)
    } else {
        obj_lookup(fields.skip(1), key)
    }
}

/// Finds the first field named `key` in an object's field list.
pub fn obj_get<'a>(fields: &'a Vec<(String, JsonVal)>, key: &str) -> (r: Option<&'a JsonVal>)
    ensures
        match r {
            Some(v) => obj_lookup(fields@, key@) == Some(*v),
            None => obj_lookup(fields@, key@) is None,
        },
{
    let key_string = String::from_str(key);
    let mut i: usize = 0;
    proof {
        assert(fields@.skip(0) =~= fields@);
    }
    while i < fields.len()
        invariant
            i <= fields@.len(),
            key_string@ == key@,
            obj_lookup(fields@, key@) == obj_lookup(fields@.skip(i as int), key@),
        decreases fields@.len() - i,
    {
        if fields[i].0 == key_string {
            return Some(&fields[i].1);
        }
        proof {
            assert(fields@.skip(i as int).skip(1) =~= fields@.skip(i as int + 1));
        }
        i = i + 1;
    }
    None
}

/// What a wire scalar becomes as a `Value`: null, booleans and text map to
/// themselves, a number is classified exactly (integer when whole and in
/// the signed 64-bit range, float otherwise), and a nested array or object
/// is outside the supported scalar set.
pub open spec fn json_scalar_spec(v: JsonVal) -> Result<Value, Error> {
    match v {
        JsonVal::Null => Ok(Value::Null),
        JsonVal::Bool(b) => Ok(Value::Bool(b)),
        JsonVal::Num(p, m, e) => Ok(number_value(p, m, e)),
        JsonVal::Str(s) => Ok(Value::Text(s)),
        JsonVal::Arr(_) => Err(Error::UnsupportedType),
        JsonVal::Obj(_) => Err(Error::UnsupportedType),
    }
}

/// Bridges one wire scalar to a `Value`, or rejects a nested value.
pub fn json_scalar_to_value(v: &JsonVal) -> (r: Result<Value, Error>)
    ensures
        r == json_scalar_spec(*v),
{
    match v {
        JsonVal::Null => Ok(Value::Null),
        JsonVal::Bool(b) => Ok(Value::Bool(*b)),
        JsonVal::Num(p, m, e) => Ok(number_to_value(*p, *m, *e)),
        JsonVal::Str(s) => Ok(Value::Text(s.clone())),
        JsonVal::Arr(_) => Err(Error::UnsupportedType),
        JsonVal::Obj(_) => Err(Error::UnsupportedType),
    }
}

/// The magnitude of a signed 64-bit integer.
pub open spec fn int_magnitude(i: i64) -> u64 {
    (if i >= 0 {
        i as int
    } else {
        -(i as int)
    }) as u64
}

/// What a `Value` reads as on the wire: an integer becomes a number with
/// exponent zero, a float keeps its decimal parts.
pub open spec fn value_json_spec(v: Value) -> JsonVal {
    match v {
        Value::Null => JsonVal::Null,
        Value::Bool(b) => JsonVal::Bool(b),
        Value::Int(i) => JsonVal::Num(i >= 0, int_magnitude(i), 0),
        Value::Float(p, m, e) => JsonVal::Num(p, m, e),
        Value::Text(s) => JsonVal::Str(s),
    }
}

/// Bridges one `Value` back to a wire scalar.
pub fn value_to_json_scalar(v: &Value) -> (r: JsonVal)
    ensures
        r == value_json_spec(*v),
{
    match v {
        Value::Null => JsonVal::Null,
        Value::Bool(b) => JsonVal::Bool(*b),
        Value::Int(i) => {
            let mag: u64 = if *i >= 0 {
                *i as u64
            } else if *i == i64::MIN {
                0x8000_0000_0000_0000u64
            } else {
                (-*i) as u64
            };
            JsonVal::Num(*i >= 0, mag, 0)
        },
        Value::Float(p, m, e) => JsonVal::Num(*p, *m, *e),
        Value::Text(s) => JsonVal::Str(s.clone()),
    }
}

/// A value sent out and bridged back in is reproduced exactly, for every
/// value but a float whose parts read as a whole number in the signed
/// 64-bit range — the wire cannot tell such a float from the integer with
/// the same reading, and the bridge classifies that reading as an integer.
pub proof fn lemma_wire_round_trip(v: Value)
    requires
        !(v matches Value::Float(p, m, e) && number_value(p, m, e) matches Value::Int(_)),
    ensures
        json_scalar_spec(value_json_spec(v)) == Ok::<Value, Error>(v),
{
    match v {
        Value::Int(i) => {
            lemma_int_num_value(i);
        },
        _ => {},
    }
}

/// A number with exponent zero whose mantissa carries the magnitude of `i`
/// reads back as exactly the integer `i`.
proof fn lemma_int_num_value(i: i64)
    ensures
        number_value(i >= 0, int_magnitude(i), 0) == Value::Int(i),
{
    let m = int_magnitude(i);
    assert(crate::number::pow10(0) == 1);
    assert((m as int) * 1 == m as int) by (nonlinear_arith);
}

} // verus!
