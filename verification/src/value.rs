//! The engine's dynamic value representation.
//!
//! The database engine exchanges untyped scalars: every bind parameter and
//! every row field is one of the five kinds below. `TursoValue` is the
//! crate's owned handle around such a scalar, and `Scalar` is the
//! mathematical model the contracts speak of.

use vstd::prelude::*;

verus! {

/// A wire-level scalar exchanged with the database engine.
///
/// Exactly one tag is active. A `Real` carries the IEEE 754 bit pattern of
/// the engine's eight-byte float, so that the variant can be stored, moved
/// and compared without floating-point arithmetic; turning the bits into a
/// machine float happens at the engine boundary, outside this crate's
/// verified core.
pub enum Value {
    Null,
    Integer(i64),
    Real(u64),
    Text(String),
    Blob(Vec<u8>),
}

/// The mathematical model of a scalar: the same five kinds with the owned
/// payloads replaced by their sequences.
pub enum Scalar {
    Null,
    Integer(i64),
    Real(u64),
    Text(Seq<char>),
    Blob(Seq<u8>),
}

/// The model of a concrete scalar.
pub open spec fn scalar_of(v: Value) -> Scalar {
    match v {
        Value::Null => Scalar::Null,
        Value::Integer(i) => Scalar::Integer(i),
        Value::Real(bits) => Scalar::Real(bits),
        Value::Text(s) => Scalar::Text(s@),
        Value::Blob(b) => Scalar::Blob(b@),
    }
}

/// The models of a list of concrete scalars, in order.
pub open spec fn scalars_view(values: Seq<Value>) -> Seq<Scalar> {
    values.map_values(|v: Value| v@)
}

/// Two concrete scalars carry the same value.
pub open spec fn value_eq(a: Value, b: Value) -> bool {
    scalar_of(a) == scalar_of(b)
}

impl View for Value {
    type V = Scalar;

    open spec fn view(&self) -> Scalar {
        scalar_of(*self)
    }
}

impl Value {
    /// An owned copy of this scalar, carrying the same value.
    pub fn duplicate(&self) -> (r: Value)
        ensures
            r@ == self@,
    {
        match self {
            Value::Null => Value::Null,
            Value::Integer(i) => Value::Integer(*i),
            Value::Real(bits) => Value::Real(*bits),
            Value::Text(s) => Value::Text(s.clone()),
            Value::Blob(b) => {
                let copy = b.clone();
                proof {
                    assert(copy@ =~= b@);
                }
                Value::Blob(copy)
            },
        }
    }
}

impl PartialEq for Value {
    fn eq(&self, other: &Value) -> (r: bool) {
        match (self, other) {
            (Value::Null, Value::Null) => true,
            (Value::Integer(a), Value::Integer(b)) => a == b,
            (Value::Real(a), Value::Real(b)) => a == b,
            (Value::Text(a), Value::Text(b)) => a.eq(b),
            (Value::Blob(a), Value::Blob(b)) => {
                let e = a.eq(b);
                proof {
                    if e {
                        assert(a@ =~= b@);
                    } else if a@ == b@ {
                        assert(forall|i: int| 0 <= i < a@.len() ==> a@[i] == b@[i]);
                        assert(false);
                    }
                }
                e
            },
            _ => false,
        }
    }
}

impl vstd::std_specs::cmp::PartialEqSpecImpl for Value {
    open spec fn obeys_eq_spec() -> bool {
        true
    }

    open spec fn eq_spec(&self, other: &Value) -> bool {
        value_eq(*self, *other)
    }
}

/// The crate's owned handle around one engine scalar.
pub struct TursoValue {
    value: Value,
}

/// The handle holding a given scalar; `From` conversions produce it.
pub closed spec fn wrapped(value: Value) -> TursoValue {
    TursoValue { value }
}

pub broadcast proof fn lemma_wrapped_view(value: Value)
    ensures
        (#[trigger] wrapped(value))@ == scalar_of(value),
{
}

impl View for TursoValue {
    type V = Scalar;

    closed spec fn view(&self) -> Scalar {
        scalar_of(self.value)
    }
}

impl TursoValue {
    /// Wraps a raw engine scalar.
    pub fn from_turso_value(value: Value) -> (r: Self)
        ensures
            r@ == value@,
    {
        Self { value }
    }

    /// The raw engine scalar, as an owned copy.
    pub fn to_turso_value(&self) -> (r: Value)
        ensures
            r@ == self@,
    {
        self.value.duplicate()
    }

    /// An owned copy of the handle, carrying the same scalar.
    pub fn duplicate(&self) -> (r: Self)
        ensures
            r@ == self@,
    {
        Self { value: self.value.duplicate() }
    }

    /// The owned text payload.
    pub fn read_string(&self) -> (r: String)
        requires
            self@ is Text,
        ensures
            r@ == self@->Text_0,
    {
        match &self.value {
            Value::Text(s) => s.clone(),
            _ => unreached(),
        }
    }

    /// An integer payload read as a truth value: any non-zero integer is true.
    pub fn read_bool(&self) -> (r: bool)
        requires
            self@ is Integer,
        ensures
            r == (self@->Integer_0 != 0),
    {
        match &self.value {
            Value::Integer(i) => *i != 0,
            _ => unreached(),
        }
    }

    /// The integer payload.
    pub fn read_integer(&self) -> (r: i64)
        requires
            self@ is Integer,
        ensures
            r == self@->Integer_0,
    {
        match &self.value {
            Value::Integer(i) => *i,
            _ => unreached(),
        }
    }

    /// The bit pattern of the real payload.
    pub fn read_real_bits(&self) -> (r: u64)
        requires
            self@ is Real,
        ensures
            r == self@->Real_0,
    {
        match &self.value {
            Value::Real(bits) => *bits,
            _ => unreached(),
        }
    }

    /// The owned blob payload.
    pub fn read_blob(&self) -> (r: Vec<u8>)
        requires
            self@ is Blob,
        ensures
            r@ == self@->Blob_0,
    {
        match &self.value {
            Value::Blob(b) => {
                let copy = b.clone();
                proof {
                    assert(copy@ =~= b@);
                }
                copy
            },
            _ => unreached(),
        }
    }

    /// Whether the scalar is the null value.
    pub fn is_null(&self) -> (r: bool)
        ensures
            r == (self@ is Null),
    {
        matches!(self.value, Value::Null)
    }
}

impl From<bool> for TursoValue {
    fn from(value: bool) -> Self {
        Self { value: Value::Integer(if value { 1 } else { 0 }) }
    }
}

impl vstd::std_specs::convert::FromSpecImpl<bool> for TursoValue {
    open spec fn obeys_from_spec() -> bool {
        true
    }

    open spec fn from_spec(value: bool) -> Self {
        wrapped(Value::Integer(if value { 1 } else { 0 }))
    }
}

impl From<i64> for TursoValue {
    fn from(value: i64) -> Self {
        Self { value: Value::Integer(value) }
    }
}

impl vstd::std_specs::convert::FromSpecImpl<i64> for TursoValue {
    open spec fn obeys_from_spec() -> bool {
        true
    }

    open spec fn from_spec(value: i64) -> Self {
        wrapped(Value::Integer(value))
    }
}

impl From<i32> for TursoValue {
    fn from(value: i32) -> Self {
        Self { value: Value::Integer(value as i64) }
    }
}

impl vstd::std_specs::convert::FromSpecImpl<i32> for TursoValue {
    open spec fn obeys_from_spec() -> bool {
        true
    }

    open spec fn from_spec(value: i32) -> Self {
        wrapped(Value::Integer(value as i64))
    }
}

impl From<i16> for TursoValue {
    fn from(value: i16) -> Self {
        Self { value: Value::Integer(value as i64) }
    }
}

impl vstd::std_specs::convert::FromSpecImpl<i16> for TursoValue {
    open spec fn obeys_from_spec() -> bool {
        true
    }

    open spec fn from_spec(value: i16) -> Self {
        wrapped(Value::Integer(value as i64))
    }
}

impl From<String> for TursoValue {
    fn from(value: String) -> Self {
        Self { value: Value::Text(value) }
    }
}

impl vstd::std_specs::convert::FromSpecImpl<String> for TursoValue {
    open spec fn obeys_from_spec() -> bool {
        true
    }

    open spec fn from_spec(value: String) -> Self {
        wrapped(Value::Text(value))
    }
}

impl From<Vec<u8>> for TursoValue {
    fn from(value: Vec<u8>) -> Self {
        Self { value: Value::Blob(value) }
    }
}

impl vstd::std_specs::convert::FromSpecImpl<Vec<u8>> for TursoValue {
    open spec fn obeys_from_spec() -> bool {
        true
    }

    open spec fn from_spec(value: Vec<u8>) -> Self {
        wrapped(Value::Blob(value))
    }
}

impl From<()> for TursoValue {
    fn from(_value: ()) -> Self {
        Self { value: Value::Null }
    }
}

impl vstd::std_specs::convert::FromSpecImpl<()> for TursoValue {
    open spec fn obeys_from_spec() -> bool {
        true
    }

    open spec fn from_spec(_value: ()) -> Self {
        wrapped(Value::Null)
    }
}

} // verus!
