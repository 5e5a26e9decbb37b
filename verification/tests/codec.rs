//! Value-model and codec behaviour: numeric round trips, null semantics,
//! and the typed conversions.

use turso_backend::backend::{SqlType, TursoBackend, TursoType};
use turso_backend::bind_collector::{IsNull, TursoBindCollector};
use turso_backend::types::{
    from_sql_binary, from_sql_bool, from_sql_i16, from_sql_i32, from_sql_i64, from_sql_real_bits,
    from_sql_string, to_sql_bool, to_sql_bytes, to_sql_i16, to_sql_i32, to_sql_i64,
    to_sql_real_bits, to_sql_str,
};
use turso_backend::value::{TursoValue, Value};

fn scratch() -> TursoValue {
    TursoValue::from_turso_value(Value::Null)
}

#[test]
fn i16_round_trips_at_extremes() {
    for v in [i16::MIN, i16::MAX, 0, -1, 1] {
        let mut out = scratch();
        assert!(matches!(to_sql_i16(v, &mut out), IsNull::No));
        assert_eq!(from_sql_i16(&out), v);
    }
}

#[test]
fn i32_round_trips_at_extremes() {
    for v in [i32::MIN, i32::MAX, 0, -1, 1] {
        let mut out = scratch();
        assert!(matches!(to_sql_i32(v, &mut out), IsNull::No));
        assert_eq!(from_sql_i32(&out), v);
    }
}

#[test]
fn i64_round_trips_at_extremes() {
    for v in [i64::MIN, i64::MAX, 0, -1, 1] {
        let mut out = scratch();
        assert!(matches!(to_sql_i64(v, &mut out), IsNull::No));
        assert_eq!(from_sql_i64(&out), v);
    }
}

#[test]
fn f32_round_trips_through_wide_real() {
    for v in [f32::MIN, f32::MAX, 0.0f32, -0.0f32, 1.5f32] {
        let bits = (v as f64).to_bits();
        let mut out = scratch();
        assert!(matches!(to_sql_real_bits(bits, &mut out), IsNull::No));
        let back = f64::from_bits(from_sql_real_bits(&out)) as f32;
        assert_eq!(back.to_bits(), v.to_bits());
    }
}

#[test]
fn f64_round_trips_bit_for_bit() {
    for v in [f64::MIN, f64::MAX, 0.0f64, -0.0f64, 2.5f64] {
        let bits = v.to_bits();
        let mut out = scratch();
        to_sql_real_bits(bits, &mut out);
        assert_eq!(from_sql_real_bits(&out), bits);
    }
}

#[test]
fn negative_zero_keeps_its_sign_bit() {
    let bits = (-0.0f64).to_bits();
    let mut out = scratch();
    to_sql_real_bits(bits, &mut out);
    let back = from_sql_real_bits(&out);
    assert_eq!(back, bits);
    assert!(f64::from_bits(back).is_sign_negative());
}

#[test]
fn bool_round_trips_as_integer_zero_or_one() {
    let mut out = scratch();
    to_sql_bool(true, &mut out);
    assert!(out.to_turso_value() == Value::Integer(1));
    assert!(from_sql_bool(&out));
    to_sql_bool(false, &mut out);
    assert!(out.to_turso_value() == Value::Integer(0));
    assert!(!from_sql_bool(&out));
}

#[test]
fn text_round_trips_including_non_ascii() {
    for s in ["Test", "üöä", ""] {
        let mut out = scratch();
        to_sql_str(s, &mut out);
        assert_eq!(from_sql_string(&out), s);
    }
}

#[test]
fn blob_round_trips() {
    let bytes = vec![0u8, 1, 2, 255, 102, 111, 111];
    let mut out = scratch();
    to_sql_bytes(&bytes, &mut out);
    assert_eq!(from_sql_binary(&out), bytes);
}

#[test]
fn from_conversions_build_the_expected_scalars() {
    assert!(TursoValue::from(true).to_turso_value() == Value::Integer(1));
    assert!(TursoValue::from(false).to_turso_value() == Value::Integer(0));
    assert!(TursoValue::from(42i16).to_turso_value() == Value::Integer(42));
    assert!(TursoValue::from(-7i32).to_turso_value() == Value::Integer(-7));
    assert!(TursoValue::from(9i64).to_turso_value() == Value::Integer(9));
    assert!(
        TursoValue::from(String::from("hi")).to_turso_value() == Value::Text(String::from("hi"))
    );
    assert!(TursoValue::from(vec![1u8, 2]).to_turso_value() == Value::Blob(vec![1, 2]));
    assert!(TursoValue::from(()).is_null());
}

#[test]
fn metadata_maps_every_sql_type() {
    assert_eq!(TursoBackend::metadata(SqlType::Bool), TursoType::Integer);
    assert_eq!(TursoBackend::metadata(SqlType::SmallInt), TursoType::Integer);
    assert_eq!(TursoBackend::metadata(SqlType::Integer), TursoType::Integer);
    assert_eq!(TursoBackend::metadata(SqlType::BigInt), TursoType::Integer);
    assert_eq!(TursoBackend::metadata(SqlType::Float), TursoType::Double);
    assert_eq!(TursoBackend::metadata(SqlType::Double), TursoType::Double);
    assert_eq!(TursoBackend::metadata(SqlType::Text), TursoType::Text);
    assert_eq!(TursoBackend::metadata(SqlType::Binary), TursoType::Binary);
    assert_eq!(TursoBackend::metadata(SqlType::Date), TursoType::Text);
    assert_eq!(TursoBackend::metadata(SqlType::Time), TursoType::Text);
    assert_eq!(TursoBackend::metadata(SqlType::Timestamp), TursoType::Text);
}

#[test]
fn null_report_always_collects_null_whatever_the_declared_type() {
    for declared in [
        TursoType::Binary,
        TursoType::Text,
        TursoType::Double,
        TursoType::Integer,
    ] {
        let mut collector = TursoBindCollector::new();
        let produced = TursoValue::from_turso_value(Value::Integer(99));
        let r = collector.push_bound_value(Ok((produced, IsNull::Yes)), declared);
        assert!(r.is_ok());
        assert_eq!(collector.binds.len(), 1);
        assert!(collector.binds[0].0.is_null());
        assert_eq!(collector.binds[0].1, declared);
    }
}

#[test]
fn serialization_failure_leaves_the_collector_unchanged() {
    let mut collector = TursoBindCollector::new();
    let r = collector.push_bound_value(Err(String::from("boom")), TursoType::Text);
    match r {
        Err(e) => assert_eq!(e.message, "boom"),
        Ok(()) => panic!("expected a serialization failure"),
    }
    assert_eq!(collector.binds.len(), 0);
}

#[test]
fn non_null_report_keeps_the_produced_value() {
    let mut collector = TursoBindCollector::new();
    let produced = TursoValue::from_turso_value(Value::Text(String::from("abc")));
    let r = collector.push_bound_value(Ok((produced, IsNull::No)), TursoType::Text);
    assert!(r.is_ok());
    assert_eq!(collector.binds.len(), 1);
    assert!(collector.binds[0].0.to_turso_value() == Value::Text(String::from("abc")));
    let values = collector.bind_values();
    assert_eq!(values.len(), 1);
    assert!(values[0] == Value::Text(String::from("abc")));
}

#[test]
fn readers_expose_each_payload() {
    let v = TursoValue::from_turso_value(Value::Text(String::from("x")));
    assert_eq!(v.read_string(), "x");
    let v = TursoValue::from_turso_value(Value::Integer(5));
    assert_eq!(v.read_integer(), 5);
    assert!(v.read_bool());
    let v = TursoValue::from_turso_value(Value::Integer(0));
    assert!(!v.read_bool());
    let v = TursoValue::from_turso_value(Value::Blob(vec![9, 8]));
    assert_eq!(v.read_blob(), vec![9, 8]);
    let v = TursoValue::from_turso_value(Value::Real(1.25f64.to_bits()));
    assert_eq!(f64::from_bits(v.read_real_bits()), 1.25);
    assert!(TursoValue::from_turso_value(Value::Null).is_null());
}
