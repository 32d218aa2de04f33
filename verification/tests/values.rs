use dbwire::number::number_to_value;
use dbwire::value::from_engine;
use dbwire::value::EngineCol;
use dbwire::value::Value;
use dbwire::wire::json_scalar_to_value;
use dbwire::wire::value_to_json_scalar;
use dbwire::wire::JsonVal;
use dbwire::error::Error;

#[test]
fn big_integer_keeps_precision() {
    // 2^53 + 1: too wide for a float's exact range, fits a 64-bit integer.
    let v = number_to_value(true, 9007199254740993, 0);
    assert_eq!(v, Value::Int(9007199254740993));
}

#[test]
fn number_with_fraction_stays_float() {
    let v = number_to_value(true, 15, -1);
    assert_eq!(v, Value::Float(true, 15, -1));
}

#[test]
fn trailing_zero_fraction_is_whole() {
    // 100e-2 reads as the whole number 1.
    assert_eq!(number_to_value(true, 100, -2), Value::Int(1));
}

#[test]
fn negative_two_to_sixty_three_fits() {
    assert_eq!(number_to_value(false, 9223372036854775808, 0), Value::Int(i64::MIN));
}

#[test]
fn two_to_sixty_three_positive_overflows() {
    assert_eq!(
        number_to_value(true, 9223372036854775808, 0),
        Value::Float(true, 9223372036854775808, 0)
    );
}

#[test]
fn large_exponent_overflows() {
    assert_eq!(number_to_value(true, 1, 19), Value::Float(true, 1, 19));
    assert_eq!(number_to_value(true, 9, 18), Value::Int(9_000_000_000_000_000_000));
}

#[test]
fn zero_is_integer_whatever_the_exponent() {
    assert_eq!(number_to_value(false, 0, -40), Value::Int(0));
    assert_eq!(number_to_value(true, 0, 30), Value::Int(0));
}

#[test]
fn tiny_fraction_stays_float() {
    assert_eq!(number_to_value(true, 3, -25), Value::Float(true, 3, -25));
}

#[test]
fn engine_round_trip_keeps_every_kind() {
    let samples = vec![
        Value::Null,
        Value::Bool(false),
        Value::Bool(true),
        Value::Int(0),
        Value::Int(-7),
        Value::Int(i64::MAX),
        Value::Float(true, 25, -1),
        Value::Text(String::from("hello")),
        Value::Text(String::new()),
    ];
    for v in samples {
        assert_eq!(from_engine(&v.to_engine()), Ok(v));
    }
}

#[test]
fn zero_and_false_stay_distinct_from_null() {
    assert_eq!(from_engine(&Value::Int(0).to_engine()), Ok(Value::Int(0)));
    assert_eq!(from_engine(&Value::Bool(false).to_engine()), Ok(Value::Bool(false)));
    assert_eq!(from_engine(&Value::Null.to_engine()), Ok(Value::Null));
}

#[test]
fn narrow_columns_widen() {
    assert_eq!(from_engine(&EngineCol::I8(-5)), Ok(Value::Int(-5)));
    assert_eq!(from_engine(&EngineCol::I16(300)), Ok(Value::Int(300)));
    assert_eq!(from_engine(&EngineCol::U32(4000000000)), Ok(Value::Int(4000000000)));
    assert_eq!(from_engine(&EngineCol::U64(7)), Ok(Value::Int(7)));
}

#[test]
fn unsigned_beyond_signed_range_is_rejected() {
    assert_eq!(from_engine(&EngineCol::U64(u64::MAX)), Err(Error::UnsupportedType));
    assert_eq!(
        from_engine(&EngineCol::U64(9223372036854775808)),
        Err(Error::UnsupportedType)
    );
    assert_eq!(
        from_engine(&EngineCol::U64(9223372036854775807)),
        Ok(Value::Int(i64::MAX))
    );
}

#[test]
fn unsupported_column_kind_is_rejected() {
    assert_eq!(from_engine(&EngineCol::Other), Err(Error::UnsupportedType));
}

#[test]
fn wire_scalars_bridge_both_ways() {
    assert_eq!(json_scalar_to_value(&JsonVal::Null), Ok(Value::Null));
    assert_eq!(json_scalar_to_value(&JsonVal::Bool(true)), Ok(Value::Bool(true)));
    assert_eq!(
        json_scalar_to_value(&JsonVal::Str(String::from("x"))),
        Ok(Value::Text(String::from("x")))
    );
    assert_eq!(
        json_scalar_to_value(&JsonVal::Num(true, 42, 0)),
        Ok(Value::Int(42))
    );
    assert_eq!(json_scalar_to_value(&JsonVal::Arr(vec![])), Err(Error::UnsupportedType));
    assert_eq!(json_scalar_to_value(&JsonVal::Obj(vec![])), Err(Error::UnsupportedType));

    match value_to_json_scalar(&Value::Int(-3)) {
        JsonVal::Num(p, m, e) => {
            assert!(!p);
            assert_eq!(m, 3);
            assert_eq!(e, 0);
        },
        _ => panic!("integer must print as a number"),
    }
    match value_to_json_scalar(&Value::Text(String::from("t"))) {
        JsonVal::Str(s) => assert_eq!(s, "t"),
        _ => panic!("text must print as a string"),
    }
}
