//! Typed parameter codecs.
//!
//! Each supported Rust type serializes into the engine's scalar shape for
//! its SQL type and deserializes back. Widening conversions are total and
//! lossless; narrowing ones truncate and never panic. An eight-byte real
//! travels as its bit pattern: the conversion between a machine float and
//! its bits happens at the engine boundary, outside the verified core.
//! Date, time and timestamp values travel as text and use the text codec.

use vstd::prelude::*;
use vstd::slice::slice_to_vec;
use vstd::string::StringExecFns;

use crate::bind_collector::IsNull;
use crate::value::{Scalar, Value, TursoValue};

verus! {

/// The scalar a boolean serializes to: integer one or zero.
pub open spec fn encode_bool_spec(value: bool) -> Scalar {
    Scalar::Integer(
        if value {
            1
        } else {
            0
        },
    )
}

/// Serializes a boolean: declared integer, stored as integer one or zero.
pub fn to_sql_bool(value: bool, out: &mut TursoValue) -> (r: IsNull)
    ensures
        final(out)@ == encode_bool_spec(value),
        r == IsNull::No,
{
    *out = TursoValue::from_turso_value(Value::Integer(
        if value {
            1
        } else {
            0
        },
    ));
    IsNull::No
}

/// Deserializes a boolean: any non-zero integer is true.
pub fn from_sql_bool(value: &TursoValue) -> (r: bool)
    requires
        value@ is Integer,
    ensures
        r == (value@->Integer_0 != 0),
{
    value.read_bool()
}

/// Serializes a sixteen-bit integer, widened losslessly.
pub fn to_sql_i16(value: i16, out: &mut TursoValue) -> (r: IsNull)
    ensures
        final(out)@ == Scalar::Integer(value as i64),
        r == IsNull::No,
{
    *out = TursoValue::from_turso_value(Value::Integer(value as i64));
    IsNull::No
}

/// Deserializes a sixteen-bit integer, truncating a wider stored value.
pub fn from_sql_i16(value: &TursoValue) -> (r: i16)
    requires
        value@ is Integer,
    ensures
        r == value@->Integer_0 as i16,
{
    let n = value.read_integer();
    #[verifier::truncate] (n as i16)
}

/// Serializes a thirty-two-bit integer, widened losslessly.
pub fn to_sql_i32(value: i32, out: &mut TursoValue) -> (r: IsNull)
    ensures
        final(out)@ == Scalar::Integer(value as i64),
        r == IsNull::No,
{
    *out = TursoValue::from_turso_value(Value::Integer(value as i64));
    IsNull::No
}

/// Deserializes a thirty-two-bit integer, truncating a wider stored value.
pub fn from_sql_i32(value: &TursoValue) -> (r: i32)
    requires
        value@ is Integer,
    ensures
        r == value@->Integer_0 as i32,
{
    let n = value.read_integer();
    #[verifier::truncate] (n as i32)
}

/// Serializes a sixty-four-bit integer as itself.
pub fn to_sql_i64(value: i64, out: &mut TursoValue) -> (r: IsNull)
    ensures
        final(out)@ == Scalar::Integer(value),
        r == IsNull::No,
{
    *out = TursoValue::from_turso_value(Value::Integer(value));
    IsNull::No
}

/// Deserializes a sixty-four-bit integer exactly.
pub fn from_sql_i64(value: &TursoValue) -> (r: i64)
    requires
        value@ is Integer,
    ensures
        r == value@->Integer_0,
{
    value.read_integer()
}

/// Serializes an eight-byte real given as its bit pattern.
pub fn to_sql_real_bits(bits: u64, out: &mut TursoValue) -> (r: IsNull)
    ensures
        final(out)@ == Scalar::Real(bits),
        r == IsNull::No,
{
    *out = TursoValue::from_turso_value(Value::Real(bits));
    IsNull::No
}

/// Deserializes an eight-byte real as its bit pattern.
pub fn from_sql_real_bits(value: &TursoValue) -> (r: u64)
    requires
        value@ is Real,
    ensures
        r == value@->Real_0,
{
    value.read_real_bits()
}

/// Serializes a text value as itself.
pub fn to_sql_str(value: &str, out: &mut TursoValue) -> (r: IsNull)
    ensures
        final(out)@ == Scalar::Text(value@),
        r == IsNull::No,
{
    *out = TursoValue::from_turso_value(Value::Text(value.to_owned()));
    IsNull::No
}

/// Deserializes a text value as itself.
pub fn from_sql_string(value: &TursoValue) -> (r: String)
    requires
        value@ is Text,
    ensures
        r@ == value@->Text_0,
{
    value.read_string()
}

/// Serializes a byte string as itself.
pub fn to_sql_bytes(value: &[u8], out: &mut TursoValue) -> (r: IsNull)
    ensures
        final(out)@ == Scalar::Blob(value@),
        r == IsNull::No,
{
    *out = TursoValue::from_turso_value(Value::Blob(slice_to_vec(value)));
    IsNull::No
}

/// Deserializes a byte string as itself.
pub fn from_sql_binary(value: &TursoValue) -> (r: Vec<u8>)
    requires
        value@ is Blob,
    ensures
        r@ == value@->Blob_0,
{
    value.read_blob()
}

/// Encoding then decoding a boolean yields the original, for every value.
pub proof fn lemma_bool_round_trip(value: bool)
    ensures
        (encode_bool_spec(value)->Integer_0 != 0) == value,
{
}

/// Encoding then decoding a sixteen-bit integer yields the original, for
/// every value, the two extremes included.
pub proof fn lemma_i16_round_trip(value: i16)
    ensures
        (value as i64) as i16 == value,
{
}

/// Encoding then decoding a thirty-two-bit integer yields the original,
/// for every value, the two extremes included.
pub proof fn lemma_i32_round_trip(value: i32)
    ensures
        (value as i64) as i32 == value,
{
}

/// An eight-byte real round-trips bit for bit: storing a bit pattern and
/// reading it back changes nothing.
pub proof fn lemma_real_bits_round_trip(bits: u64)
    ensures
        Scalar::Real(bits)->Real_0 == bits,
{
}

} // verus!
