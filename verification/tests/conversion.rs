use anyvalue_dataframe::scalar::TaggedScalar;
use anyvalue_dataframe::scalar::TypeTag;
use anyvalue_dataframe::scalar::from_any_binary;
use anyvalue_dataframe::scalar::from_any_bool;
use anyvalue_dataframe::scalar::from_any_f32_bits;
use anyvalue_dataframe::scalar::from_any_f64_bits;
use anyvalue_dataframe::scalar::from_any_i16;
use anyvalue_dataframe::scalar::from_any_i32;
use anyvalue_dataframe::scalar::from_any_i64;
use anyvalue_dataframe::scalar::from_any_i8;
use anyvalue_dataframe::scalar::from_any_null;
use anyvalue_dataframe::scalar::from_any_u16;
use anyvalue_dataframe::scalar::from_any_u32;
use anyvalue_dataframe::scalar::from_any_u64;
use anyvalue_dataframe::scalar::from_any_u8;
use anyvalue_dataframe::scalar::from_any_unknown;
use anyvalue_dataframe::scalar::from_any_utf8;
use anyvalue_dataframe::scalar::to_any_binary;
use anyvalue_dataframe::scalar::to_any_bool;
use anyvalue_dataframe::scalar::to_any_f32_bits;
use anyvalue_dataframe::scalar::to_any_f64_bits;
use anyvalue_dataframe::scalar::to_any_i16;
use anyvalue_dataframe::scalar::to_any_i32;
use anyvalue_dataframe::scalar::to_any_i64;
use anyvalue_dataframe::scalar::to_any_i8;
use anyvalue_dataframe::scalar::to_any_null;
use anyvalue_dataframe::scalar::to_any_u16;
use anyvalue_dataframe::scalar::to_any_u32;
use anyvalue_dataframe::scalar::to_any_u64;
use anyvalue_dataframe::scalar::to_any_u8;
use anyvalue_dataframe::scalar::to_any_utf8;

#[test]
fn test_dataframe() {
    let a = to_any_u64(3);
    assert_eq!(a, TaggedScalar::UInt64(3));
    assert_eq!(a.dtype(), TypeTag::UInt64);
    let b = to_any_utf8(String::from("A"));
    assert_eq!(b, TaggedScalar::Utf8(String::from("A")));
    assert_eq!(b.dtype(), TypeTag::Utf8);
    let c = to_any_i8(4);
    assert_eq!(c, TaggedScalar::Int8(4));
    assert_eq!(c.dtype(), TypeTag::Int8);
    let d = to_any_f64_bits(1.5f64.to_bits());
    assert_eq!(d, TaggedScalar::Float64Bits(1.5f64.to_bits()));
    assert_eq!(d.dtype(), TypeTag::Float64);
    let e = to_any_bool(true);
    assert_eq!(e, TaggedScalar::Boolean(true));
    assert_eq!(e.dtype(), TypeTag::Boolean);
    let f = to_any_binary(vec![255, 0]);
    assert_eq!(f, TaggedScalar::Binary(vec![255, 0]));
    assert_eq!(f.dtype(), TypeTag::Binary);
}

#[test]
fn round_trip_signed() {
    assert_eq!(from_any_i8(&to_any_i8(-7)), -7);
    assert_eq!(from_any_i16(&to_any_i16(-300)), -300);
    assert_eq!(from_any_i32(&to_any_i32(70_000)), 70_000);
    assert_eq!(from_any_i64(&to_any_i64(i64::MIN)), i64::MIN);
}

#[test]
fn round_trip_unsigned() {
    assert_eq!(from_any_u8(&to_any_u8(255)), 255);
    assert_eq!(from_any_u16(&to_any_u16(65_535)), 65_535);
    assert_eq!(from_any_u32(&to_any_u32(4_000_000_000)), 4_000_000_000);
    assert_eq!(from_any_u64(&to_any_u64(u64::MAX)), u64::MAX);
}

#[test]
fn round_trip_float_bits() {
    let f32_bits = 2.75f32.to_bits();
    assert_eq!(from_any_f32_bits(&to_any_f32_bits(f32_bits)), f32_bits);
    assert_eq!(f32::from_bits(from_any_f32_bits(&to_any_f32_bits(f32_bits))), 2.75f32);
    let f64_bits = (-0.125f64).to_bits();
    assert_eq!(from_any_f64_bits(&to_any_f64_bits(f64_bits)), f64_bits);
    assert_eq!(f64::from_bits(from_any_f64_bits(&to_any_f64_bits(f64_bits))), -0.125f64);
}

#[test]
fn round_trip_bool_text_binary() {
    assert_eq!(from_any_bool(&to_any_bool(true)), true);
    assert_eq!(from_any_bool(&to_any_bool(false)), false);
    assert_eq!(from_any_utf8(&to_any_utf8(String::from("hello"))), String::from("hello"));
    assert_eq!(from_any_utf8(&to_any_utf8(String::new())), String::new());
    assert_eq!(from_any_binary(&to_any_binary(vec![0, 1, 255])), vec![0, 1, 255]);
}

#[test]
fn mismatch_yields_defaults() {
    let s = to_any_u64(99);
    assert_eq!(from_any_i8(&s), 0);
    assert_eq!(from_any_i16(&s), 0);
    assert_eq!(from_any_i32(&s), 0);
    assert_eq!(from_any_i64(&s), 0);
    assert_eq!(from_any_u8(&s), 0);
    assert_eq!(from_any_u16(&s), 0);
    assert_eq!(from_any_u32(&s), 0);
    assert_eq!(from_any_f32_bits(&s), 0);
    assert_eq!(from_any_f64_bits(&s), 0);
    assert_eq!(from_any_bool(&s), false);
    assert_eq!(from_any_utf8(&s), String::new());
    assert_eq!(from_any_binary(&s), Vec::<u8>::new());

    let t = to_any_utf8(String::from("not a number"));
    assert_eq!(from_any_u64(&t), 0);
    assert_eq!(from_any_i64(&t), 0);
    assert_eq!(from_any_bool(&t), false);

    let b = to_any_bool(true);
    assert_eq!(from_any_utf8(&b), String::new());
    assert_eq!(from_any_binary(&b), Vec::<u8>::new());
    assert_eq!(from_any_u8(&b), 0);
}

#[test]
fn null_wrap_discards_value() {
    assert_eq!(to_any_null(123i64), TaggedScalar::Null);
    assert_eq!(to_any_null("anything"), TaggedScalar::Null);
    assert_eq!(to_any_null(vec![1u8, 2]), TaggedScalar::Null);
    assert_eq!(to_any_null(3u64).dtype(), TypeTag::Null);
}

#[test]
fn null_and_unknown_unwrap_to_zero() {
    assert_eq!(from_any_null(&to_any_u64(17)), 0);
    assert_eq!(from_any_null(&TaggedScalar::Null), 0);
    assert_eq!(from_any_unknown(&to_any_utf8(String::from("x"))), 0);
    assert_eq!(from_any_unknown(&TaggedScalar::Unknown), 0);
}
