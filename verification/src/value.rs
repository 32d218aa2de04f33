//! The scalar value bridge.
//!
//! `Value` is the closed scalar set that travels over the wire and in and
//! out of the engine: null, boolean, 64-bit signed integer, 64-bit float,
//! and text. A float is carried as its exact decimal parts — sign, decimal
//! mantissa and decimal exponent, meaning `±mantissa · 10^exponent` — so
//! that no float arithmetic is ever performed here; the boundary that talks
//! to the engine converts parts to and from the engine's native floats.
//! `EngineCol` mirrors the engine's typed column readings; `from_engine`
//! widens each supported reading to a `Value` and rejects everything else,
//! and `to_engine` names the reading that binding a `Value` produces.

use vstd::prelude::*;
use crate::error::Error;

verus! {

/// A tagged scalar of the wire protocol and of the engine boundary.
#[derive(Debug, Clone, PartialEq)]
pub enum Value {
    Null,
    Bool(bool),
    Int(i64),
    /// A float, carried as its decimal parts: sign, mantissa, exponent.
    Float(bool, u64, i16),
    Text(String),
}

/// One row of a result set.
pub type Row = Vec<Value>;

/// One column reading handed back by the engine, at its native width.
///
/// A float reading is carried as decimal parts (sign, mantissa, exponent),
/// which the boundary that reads the engine's columns renders from the
/// engine's 32- or 64-bit float. `Other` stands for every engine column
/// kind outside the supported scalar set: large integers, decimals,
/// timestamps, blobs, nested values.
#[derive(Debug, Clone, PartialEq)]
pub enum EngineCol {
    Null,
    Bool(bool),
    I8(i8),
    I16(i16),
    I32(i32),
    I64(i64),
    U8(u8),
    U16(u16),
    U32(u32),
    U64(u64),
    F64(bool, u64, i16),
    Text(String),
    Other,
}

/// What `from_engine` returns for each engine reading: every integer kind
/// that fits a 64-bit signed integer is widened to one; any other kind,
/// and an unsigned 64-bit reading beyond the signed range, is rejected
/// rather than truncated.
pub open spec fn from_engine_spec(c: EngineCol) -> Result<Value, Error> {
    match c {
        EngineCol::Null => Ok(Value::Null),
        EngineCol::Bool(b) => Ok(Value::Bool(b)),
        EngineCol::I8(v) => Ok(Value::Int(v as i64)),
        EngineCol::I16(v) => Ok(Value::Int(v as i64)),
        EngineCol::I32(v) => Ok(Value::Int(v as i64)),
        EngineCol::I64(v) => Ok(Value::Int(v)),
        EngineCol::U8(v) => Ok(Value::Int(v as i64)),
        EngineCol::U16(v) => Ok(Value::Int(v as i64)),
        EngineCol::U32(v) => Ok(Value::Int(v as i64)),
        EngineCol::U64(v) => if v <= i64::MAX as u64 {
            Ok(Value::Int(v as i64))
        } else {
            Err(Error::UnsupportedType)
        },
        EngineCol::F64(p, m, e) => Ok(Value::Float(p, m, e)),
        EngineCol::Text(s) => Ok(Value::Text(s)),
        EngineCol::Other => Err(Error::UnsupportedType),
    }
}

impl Value {
    /// Maps each scalar kind to the engine reading that binding it produces:
    /// null binds as null, a boolean as a boolean, an integer as a 64-bit
    /// signed integer, a float as a 64-bit float, text as text.
    pub fn to_engine(&self) -> (r: EngineCol)
        ensures
            r == to_engine_spec(*self),
    {
        match self {
            Value::Null => EngineCol::Null,
            Value::Bool(b) => EngineCol::Bool(*b),
            Value::Int(v) => EngineCol::I64(*v),
            Value::Float(p, m, e) => EngineCol::F64(*p, *m, *e),
            Value::Text(s) => EngineCol::Text(s.clone()),
        }
    }
}

/// The engine reading that binding a `Value` produces.
pub open spec fn to_engine_spec(v: Value) -> EngineCol {
    match v {
        Value::Null => EngineCol::Null,
        Value::Bool(b) => EngineCol::Bool(b),
        Value::Int(i) => EngineCol::I64(i),
        Value::Float(p, m, e) => EngineCol::F64(p, m, e),
        Value::Text(s) => EngineCol::Text(s),
    }
}

/// Widens one engine column reading to a wire scalar, or rejects it.
pub fn from_engine(c: &EngineCol) -> (r: Result<Value, Error>)
    ensures
        r == from_engine_spec(*c),
{
    match c {
        EngineCol::Null => Ok(Value::Null),
        EngineCol::Bool(b) => Ok(Value::Bool(*b)),
        EngineCol::I8(v) => Ok(Value::Int(*v as i64)),
        EngineCol::I16(v) => Ok(Value::Int(*v as i64)),
        EngineCol::I32(v) => Ok(Value::Int(*v as i64)),
        EngineCol::I64(v) => Ok(Value::Int(*v)),
        EngineCol::U8(v) => Ok(Value::Int(*v as i64)),
        EngineCol::U16(v) => Ok(Value::Int(*v as i64)),
        EngineCol::U32(v) => Ok(Value::Int(*v as i64)),
        EngineCol::U64(v) => if *v <= i64::MAX as u64 {
            Ok(Value::Int(*v as i64))
        } else {
            Err(Error::UnsupportedType)
        },
        EngineCol::F64(p, m, e) => Ok(Value::Float(*p, *m, *e)),
        EngineCol::Text(s) => Ok(Value::Text(s.clone())),
        EngineCol::Other => Err(Error::UnsupportedType),
    }
}

/// Binding a value and reading the same column kind back reproduces the
/// value exactly; in particular integer zero and boolean false stay
/// distinguishable from null, because every kind maps to its own reading.
pub proof fn lemma_engine_round_trip(v: Value)
    ensures
        from_engine_spec(to_engine_spec(v)) == Ok::<Value, Error>(v),
{
}

} // verus!
