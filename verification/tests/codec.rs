use numeric_codec::codec::decode;
use numeric_codec::codec::encode;
use numeric_codec::codec::kind_of;
use numeric_codec::codec::NumericValue;
use numeric_codec::cursor::Cursor;
use numeric_codec::cursor::DecodeError;
use numeric_codec::kind::reserved_size;
use numeric_codec::kind::NumericKind;

fn round_trip(v: NumericValue) {
    let mut cursor = Cursor::new();
    encode(&v, &mut cursor);
    let decoded = decode(kind_of(&v), &mut cursor);
    assert_eq!(decoded, Ok(v));
}

#[test]
fn round_trip_signed_boundaries() {
    round_trip(NumericValue::Int8(i8::MIN));
    round_trip(NumericValue::Int8(-1));
    round_trip(NumericValue::Int8(0));
    round_trip(NumericValue::Int8(i8::MAX));
    round_trip(NumericValue::Int16(i16::MIN));
    round_trip(NumericValue::Int16(-1));
    round_trip(NumericValue::Int16(i16::MAX));
    round_trip(NumericValue::Int32(i32::MIN));
    round_trip(NumericValue::Int32(-1));
    round_trip(NumericValue::Int32(i32::MAX));
    round_trip(NumericValue::Int64(i64::MIN));
    round_trip(NumericValue::Int64(-1));
    round_trip(NumericValue::Int64(i64::MAX));
}

#[test]
fn round_trip_unsigned_boundaries() {
    round_trip(NumericValue::UInt8(0));
    round_trip(NumericValue::UInt8(u8::MAX));
    round_trip(NumericValue::UInt16(0));
    round_trip(NumericValue::UInt16(u16::MAX));
    round_trip(NumericValue::UInt32(0));
    round_trip(NumericValue::UInt32(u32::MAX));
    round_trip(NumericValue::UInt64(0));
    round_trip(NumericValue::UInt64(u64::MAX));
}

#[test]
fn round_trip_float_bit_patterns() {
    for bits in [
        0.0f32.to_bits(),
        (-0.0f32).to_bits(),
        f32::INFINITY.to_bits(),
        f32::NEG_INFINITY.to_bits(),
        f32::NAN.to_bits(),
        0x7fc00001u32, // NaN with a payload bit set
        1.5f32.to_bits(),
        f32::MIN.to_bits(),
    ] {
        round_trip(NumericValue::Float32Bits(bits));
    }
    for bits in [
        0.0f64.to_bits(),
        (-0.0f64).to_bits(),
        f64::INFINITY.to_bits(),
        f64::NEG_INFINITY.to_bits(),
        f64::NAN.to_bits(),
        0x7ff8000000000001u64, // NaN with a payload bit set
        (-2.25f64).to_bits(),
        f64::MAX.to_bits(),
    ] {
        round_trip(NumericValue::Float64Bits(bits));
    }
}

fn all_values() -> Vec<NumericValue> {
    vec![
        NumericValue::Int8(-7),
        NumericValue::UInt8(7),
        NumericValue::Int16(-777),
        NumericValue::UInt16(777),
        NumericValue::Int32(-77777),
        NumericValue::UInt32(77777),
        NumericValue::Int64(-7777777777),
        NumericValue::UInt64(7777777777),
        NumericValue::Float32Bits(1.25f32.to_bits()),
        NumericValue::Float64Bits(1.25f64.to_bits()),
    ]
}

#[test]
fn encode_grows_buffer_by_reserved_size() {
    for v in all_values() {
        let mut cursor = Cursor::new();
        let before = cursor.len();
        encode(&v, &mut cursor);
        assert_eq!(cursor.len() - before, reserved_size(kind_of(&v)));
        assert_eq!(cursor.position(), 0);
    }
}

#[test]
fn decode_advances_position_by_reserved_size() {
    for v in all_values() {
        let mut cursor = Cursor::new();
        encode(&v, &mut cursor);
        let before = cursor.position();
        decode(kind_of(&v), &mut cursor).unwrap();
        assert_eq!(cursor.position() - before, reserved_size(kind_of(&v)));
    }
}

#[test]
fn little_endian_byte_layout() {
    let mut cursor = Cursor::new();
    encode(&NumericValue::UInt16(0x1234), &mut cursor);
    assert_eq!(cursor.into_bytes(), vec![0x34, 0x12]);

    let mut cursor = Cursor::new();
    encode(&NumericValue::Int32(-2), &mut cursor);
    assert_eq!(cursor.into_bytes(), vec![0xFE, 0xFF, 0xFF, 0xFF]);

    let mut cursor = Cursor::new();
    encode(&NumericValue::UInt64(0x0102030405060708), &mut cursor);
    assert_eq!(
        cursor.into_bytes(),
        vec![0x08, 0x07, 0x06, 0x05, 0x04, 0x03, 0x02, 0x01]
    );
}

#[test]
fn underrun_leaves_position_untouched() {
    let mut cursor = Cursor::from_bytes(vec![1, 2, 3]);
    assert_eq!(
        decode(NumericKind::UInt32, &mut cursor),
        Err(DecodeError::Underrun)
    );
    assert_eq!(cursor.position(), 0);
    assert_eq!(cursor.remaining_len(), 3);
    // Two bytes do remain, so a two-byte kind still decodes afterwards.
    assert_eq!(
        decode(NumericKind::UInt16, &mut cursor),
        Ok(NumericValue::UInt16(0x0201))
    );
    assert_eq!(cursor.position(), 2);
}

#[test]
fn underrun_for_every_kind_on_short_input() {
    let kinds = [
        NumericKind::Int8,
        NumericKind::UInt8,
        NumericKind::Int16,
        NumericKind::UInt16,
        NumericKind::Int32,
        NumericKind::UInt32,
        NumericKind::Int64,
        NumericKind::UInt64,
        NumericKind::Float32,
        NumericKind::Float64,
    ];
    for kind in kinds {
        let short = vec![0u8; reserved_size(kind) - 1];
        let mut cursor = Cursor::from_bytes(short);
        assert_eq!(decode(kind, &mut cursor), Err(DecodeError::Underrun));
        assert_eq!(cursor.position(), 0);
    }
}

#[test]
fn underrun_mid_stream() {
    let mut cursor = Cursor::new();
    encode(&NumericValue::UInt64(0xDEADBEEF00C0FFEE), &mut cursor);
    assert_eq!(
        decode(NumericKind::UInt32, &mut cursor),
        Ok(NumericValue::UInt32(0x00C0FFEE))
    );
    assert_eq!(cursor.position(), 4);
    assert_eq!(
        decode(NumericKind::UInt64, &mut cursor),
        Err(DecodeError::Underrun)
    );
    assert_eq!(cursor.position(), 4);
    assert_eq!(
        decode(NumericKind::UInt32, &mut cursor),
        Ok(NumericValue::UInt32(0xDEADBEEF))
    );
}

#[test]
fn several_values_decode_in_order() {
    let mut cursor = Cursor::new();
    let values = all_values();
    for v in &values {
        encode(v, &mut cursor);
    }
    for v in &values {
        assert_eq!(decode(kind_of(v), &mut cursor), Ok(*v));
    }
    assert_eq!(cursor.remaining_len(), 0);
}

#[test]
fn scenario_u32_max() {
    let mut cursor = Cursor::new();
    encode(&NumericValue::UInt32(4294967295), &mut cursor);
    assert_eq!(cursor.len(), 4);
    let bytes = cursor.into_bytes();
    assert_eq!(bytes, vec![0xFF, 0xFF, 0xFF, 0xFF]);
    let mut reader = Cursor::from_bytes(bytes);
    assert_eq!(
        decode(NumericKind::UInt32, &mut reader),
        Ok(NumericValue::UInt32(4294967295))
    );
}

#[test]
fn scenario_f64_nan_payload_preserved() {
    let payload: u64 = 0x7ff8000000000001;
    assert!(f64::from_bits(payload).is_nan());
    let mut cursor = Cursor::new();
    encode(&NumericValue::Float64Bits(payload), &mut cursor);
    assert_eq!(cursor.len(), 8);
    let decoded = decode(NumericKind::Float64, &mut cursor).unwrap();
    // The exact payload comes back: decoding does not canonicalize the NaN.
    assert_eq!(decoded, NumericValue::Float64Bits(payload));
    match decoded {
        NumericValue::Float64Bits(bits) => {
            assert!(f64::from_bits(bits).is_nan());
            assert_eq!(bits, payload);
        }
        _ => panic!("decoded value of the wrong kind"),
    }
}

#[test]
fn kind_of_matches_variant() {
    assert_eq!(kind_of(&NumericValue::Int8(1)), NumericKind::Int8);
    assert_eq!(kind_of(&NumericValue::UInt8(1)), NumericKind::UInt8);
    assert_eq!(kind_of(&NumericValue::Int16(1)), NumericKind::Int16);
    assert_eq!(kind_of(&NumericValue::UInt16(1)), NumericKind::UInt16);
    assert_eq!(kind_of(&NumericValue::Int32(1)), NumericKind::Int32);
    assert_eq!(kind_of(&NumericValue::UInt32(1)), NumericKind::UInt32);
    assert_eq!(kind_of(&NumericValue::Int64(1)), NumericKind::Int64);
    assert_eq!(kind_of(&NumericValue::UInt64(1)), NumericKind::UInt64);
    assert_eq!(
        kind_of(&NumericValue::Float32Bits(0)),
        NumericKind::Float32
    );
    assert_eq!(
        kind_of(&NumericValue::Float64Bits(0)),
        NumericKind::Float64
    );
}
