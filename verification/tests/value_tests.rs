use wasmer_bridge::codec::{decode, encode, HostValue};
use wasmer_bridge::error::Error;
use wasmer_bridge::value::{kind_code, kind_from_code, slot_to_value, value_to_slot, Kind, TaggedValue};

#[test]
fn kind_codes_name_the_four_kinds() {
    assert_eq!(kind_from_code(1), Some(Kind::I32));
    assert_eq!(kind_from_code(2), Some(Kind::I64));
    assert_eq!(kind_from_code(3), Some(Kind::F32));
    assert_eq!(kind_from_code(4), Some(Kind::F64));
}

#[test]
fn kind_codes_reject_everything_else() {
    assert_eq!(kind_from_code(0), None);
    assert_eq!(kind_from_code(5), None);
    assert_eq!(kind_from_code(-1), None);
    assert_eq!(kind_from_code(i32::MAX), None);
}

#[test]
fn kind_code_is_the_inverse_of_kind_from_code() {
    for k in [Kind::I32, Kind::I64, Kind::F32, Kind::F64] {
        assert_eq!(kind_from_code(kind_code(k)), Some(k));
    }
}

#[test]
fn slot_round_trip_is_identity_for_integers() {
    for v in [
        TaggedValue::I32(0),
        TaggedValue::I32(-1),
        TaggedValue::I32(i32::MIN),
        TaggedValue::I32(i32::MAX),
        TaggedValue::I64(i64::MIN),
        TaggedValue::I64(i64::MAX),
    ] {
        let k = v.kind();
        assert_eq!(slot_to_value(k, value_to_slot(&v)), v);
    }
}

#[test]
fn slot_encoding_sign_extends_32_bit_integers() {
    assert_eq!(value_to_slot(&TaggedValue::I32(-1)), -1i64);
    assert_eq!(value_to_slot(&TaggedValue::I32(-2)), -2i64);
    assert_eq!(value_to_slot(&TaggedValue::I32(7)), 7i64);
}

#[test]
fn slot_encoding_zero_extends_float_bit_patterns() {
    let bits = (-0.0f32).to_bits();
    assert_eq!(value_to_slot(&TaggedValue::F32(bits)), bits as i64);
    let nan_bits = 0xffc0_0001u32;
    assert_eq!(value_to_slot(&TaggedValue::F32(nan_bits)), nan_bits as i64);
}

#[test]
fn slot_round_trip_keeps_float_bits_exactly() {
    let quiet_nan_with_payload = f32::from_bits(0x7fc0_0abc);
    let v = TaggedValue::F32(quiet_nan_with_payload.to_bits());
    assert_eq!(slot_to_value(Kind::F32, value_to_slot(&v)), v);

    let negative_zero = TaggedValue::F64((-0.0f64).to_bits());
    assert_eq!(slot_to_value(Kind::F64, value_to_slot(&negative_zero)), negative_zero);

    let wide_nan = TaggedValue::F64(f64::from_bits(0xfff8_0000_0000_0123).to_bits());
    assert_eq!(slot_to_value(Kind::F64, value_to_slot(&wide_nan)), wide_nan);
}

#[test]
fn codec_round_trips_all_four_kinds_bit_exactly() {
    let values = [
        TaggedValue::I32(-42),
        TaggedValue::I64(1 << 62),
        TaggedValue::F32(f32::NAN.to_bits()),
        TaggedValue::F32((-0.0f32).to_bits()),
        TaggedValue::F32(0.0f32.to_bits()),
        TaggedValue::F64(f64::from_bits(0x7ff8_0000_0000_beef).to_bits()),
        TaggedValue::F64((-0.0f64).to_bits()),
    ];
    for v in values {
        assert_eq!(decode(encode(&v)).unwrap(), v);
    }
}

#[test]
fn codec_preserves_nan_payloads() {
    let payload_bits = 0x7fc0_1234u32;
    let v = TaggedValue::F32(payload_bits);
    match decode(encode(&v)).unwrap() {
        TaggedValue::F32(bits) => assert_eq!(bits, payload_bits),
        other => panic!("wrong kind came back: {:?}", other),
    }
}

#[test]
fn decoding_null_is_a_conversion_error_naming_it() {
    match decode(HostValue::Null) {
        Err(Error::ConversionError(m)) => assert_eq!(m, "null"),
        other => panic!("expected a conversion error, got ok={}", other.is_ok()),
    }
}

#[test]
fn decoding_an_unrecognized_value_names_it() {
    let result = decode(HostValue::Other("java.lang.String \"hello\"".to_string()));
    match result {
        Err(Error::ConversionError(d)) => assert_eq!(d, "java.lang.String \"hello\""),
        other => panic!("expected a conversion error, got {:?}", other.is_ok()),
    }
}

#[test]
fn encode_picks_the_matching_boxed_class() {
    assert!(matches!(encode(&TaggedValue::I32(3)), HostValue::Int(3)));
    assert!(matches!(encode(&TaggedValue::I64(4)), HostValue::Long(4)));
    let fbits = 1.5f32.to_bits();
    assert!(matches!(encode(&TaggedValue::F32(fbits)), HostValue::Float(b) if b == fbits));
    let dbits = 2.5f64.to_bits();
    assert!(matches!(encode(&TaggedValue::F64(dbits)), HostValue::Double(b) if b == dbits));
}
