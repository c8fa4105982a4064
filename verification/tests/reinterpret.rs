use byteview::reinterpret::{
    float_pattern, signed_reading, to_be_bytes, to_le_bytes, truncate, FloatPattern,
};
use byteview::selection::DataType;

const SAMPLES: [u128; 14] = [
    0,
    1,
    0x7F,
    0x80,
    0xFF,
    0x100,
    0x0102_0304,
    0x8000_0000,
    0xFFFF_FFFF,
    0x0123_4567_89AB_CDEF,
    0x8000_0000_0000_0000,
    0x0123_4567_89AB_CDEF_FEDC_BA98_7654_3210,
    0x8000_0000_0000_0000_0000_0000_0000_0000,
    u128::MAX,
];

#[test]
fn truncation_keeps_the_low_bits() {
    let v: u128 = 0x0123_4567_89AB_CDEF_FEDC_BA98_7654_3210;
    assert_eq!(truncate(v, DataType::U8), 0x10);
    assert_eq!(truncate(v, DataType::I8), 0x10);
    assert_eq!(truncate(v, DataType::U16), 0x3210);
    assert_eq!(truncate(v, DataType::I16), 0x3210);
    assert_eq!(truncate(v, DataType::U32), 0x7654_3210);
    assert_eq!(truncate(v, DataType::I32), 0x7654_3210);
    assert_eq!(truncate(v, DataType::F32), 0x7654_3210);
    assert_eq!(truncate(v, DataType::U64), 0xFEDC_BA98_7654_3210);
    assert_eq!(truncate(v, DataType::I64), 0xFEDC_BA98_7654_3210);
    assert_eq!(truncate(v, DataType::F64), 0xFEDC_BA98_7654_3210);
    assert_eq!(truncate(v, DataType::U128), v);
    assert_eq!(truncate(v, DataType::I128), v);
}

#[test]
fn truncation_at_the_width_boundaries() {
    assert_eq!(truncate(0xFF, DataType::U8), 0xFF);
    assert_eq!(truncate(0x100, DataType::U8), 0);
    assert_eq!(truncate(0x1FF, DataType::U8), 0xFF);
    assert_eq!(truncate(0xFFFF, DataType::U16), 0xFFFF);
    assert_eq!(truncate(0x1_0000, DataType::U16), 0);
    assert_eq!(truncate(0xFFFF_FFFF, DataType::U32), 0xFFFF_FFFF);
    assert_eq!(truncate(0x1_0000_0000, DataType::U32), 0);
    assert_eq!(truncate(0xFFFF_FFFF_FFFF_FFFF, DataType::U64), 0xFFFF_FFFF_FFFF_FFFF);
    assert_eq!(truncate(0x1_0000_0000_0000_0000, DataType::U64), 0);
    assert_eq!(truncate(u128::MAX, DataType::U128), u128::MAX);
}

#[test]
fn truncating_twice_is_truncating_once() {
    for t in DataType::all() {
        for v in SAMPLES {
            let once = truncate(v, t);
            assert_eq!(truncate(once, t), once);
        }
    }
}

#[test]
fn truncation_agrees_with_integer_casts() {
    for v in SAMPLES {
        assert_eq!(truncate(v, DataType::U8), v as u8 as u128);
        assert_eq!(truncate(v, DataType::U16), v as u16 as u128);
        assert_eq!(truncate(v, DataType::U32), v as u32 as u128);
        assert_eq!(truncate(v, DataType::U64), v as u64 as u128);
        assert_eq!(truncate(v, DataType::U128), v);
    }
}

#[test]
fn little_endian_bytes_of_a_32_bit_value() {
    assert_eq!(to_le_bytes(0x0102_0304, DataType::U32), vec![0x04, 0x03, 0x02, 0x01]);
    assert_eq!(to_be_bytes(0x0102_0304, DataType::U32), vec![0x01, 0x02, 0x03, 0x04]);
}

#[test]
fn single_byte_types_have_one_byte_in_either_order() {
    assert_eq!(to_le_bytes(0xAB, DataType::U8), vec![0xAB]);
    assert_eq!(to_be_bytes(0xAB, DataType::U8), vec![0xAB]);
    assert_eq!(to_le_bytes(0x12AB, DataType::I8), vec![0xAB]);
    assert_eq!(to_be_bytes(0x12AB, DataType::I8), vec![0xAB]);
}

#[test]
fn bytes_agree_with_the_integer_types() {
    for v in SAMPLES {
        assert_eq!(to_le_bytes(v, DataType::U8), (v as u8).to_le_bytes().to_vec());
        assert_eq!(to_le_bytes(v, DataType::U16), (v as u16).to_le_bytes().to_vec());
        assert_eq!(to_le_bytes(v, DataType::U32), (v as u32).to_le_bytes().to_vec());
        assert_eq!(to_le_bytes(v, DataType::U64), (v as u64).to_le_bytes().to_vec());
        assert_eq!(to_le_bytes(v, DataType::U128), v.to_le_bytes().to_vec());
        assert_eq!(to_le_bytes(v, DataType::I8), (v as i8).to_le_bytes().to_vec());
        assert_eq!(to_le_bytes(v, DataType::I16), (v as i16).to_le_bytes().to_vec());
        assert_eq!(to_le_bytes(v, DataType::I32), (v as i32).to_le_bytes().to_vec());
        assert_eq!(to_le_bytes(v, DataType::I64), (v as i64).to_le_bytes().to_vec());
        assert_eq!(to_le_bytes(v, DataType::I128), (v as i128).to_le_bytes().to_vec());

        assert_eq!(to_be_bytes(v, DataType::U8), (v as u8).to_be_bytes().to_vec());
        assert_eq!(to_be_bytes(v, DataType::U16), (v as u16).to_be_bytes().to_vec());
        assert_eq!(to_be_bytes(v, DataType::U32), (v as u32).to_be_bytes().to_vec());
        assert_eq!(to_be_bytes(v, DataType::U64), (v as u64).to_be_bytes().to_vec());
        assert_eq!(to_be_bytes(v, DataType::U128), v.to_be_bytes().to_vec());
        assert_eq!(to_be_bytes(v, DataType::I8), (v as i8).to_be_bytes().to_vec());
        assert_eq!(to_be_bytes(v, DataType::I16), (v as i16).to_be_bytes().to_vec());
        assert_eq!(to_be_bytes(v, DataType::I32), (v as i32).to_be_bytes().to_vec());
        assert_eq!(to_be_bytes(v, DataType::I64), (v as i64).to_be_bytes().to_vec());
        assert_eq!(to_be_bytes(v, DataType::I128), (v as i128).to_be_bytes().to_vec());
    }
}

#[test]
fn bytes_agree_with_the_float_types() {
    for v in SAMPLES {
        let single = f32::from_bits(v as u32);
        let double = f64::from_bits(v as u64);
        assert_eq!(to_le_bytes(v, DataType::F32), single.to_le_bytes().to_vec());
        assert_eq!(to_be_bytes(v, DataType::F32), single.to_be_bytes().to_vec());
        assert_eq!(to_le_bytes(v, DataType::F64), double.to_le_bytes().to_vec());
        assert_eq!(to_be_bytes(v, DataType::F64), double.to_be_bytes().to_vec());
    }
}

#[test]
fn reversed_little_endian_is_big_endian() {
    for t in DataType::all() {
        for v in SAMPLES {
            let mut reversed = to_le_bytes(v, t);
            reversed.reverse();
            assert_eq!(reversed, to_be_bytes(v, t));
            assert_eq!(reversed.len(), t.byte_len());
        }
    }
}

#[test]
fn bytes_above_the_width_are_dropped() {
    let v: u128 = 0x0123_4567_89AB_CDEF_FEDC_BA98_7654_3210;
    assert_eq!(to_le_bytes(v, DataType::U16), vec![0x10, 0x32]);
    assert_eq!(to_be_bytes(v, DataType::U16), vec![0x32, 0x10]);
    assert_eq!(
        to_le_bytes(v, DataType::U64),
        vec![0x10, 0x32, 0x54, 0x76, 0x98, 0xBA, 0xDC, 0xFE]
    );
    assert_eq!(
        to_be_bytes(v, DataType::U128),
        vec![
            0x01, 0x23, 0x45, 0x67, 0x89, 0xAB, 0xCD, 0xEF, 0xFE, 0xDC, 0xBA, 0x98, 0x76, 0x54,
            0x32, 0x10
        ]
    );
}

#[test]
fn magnitude_255_reads_as_minus_one_in_eight_signed_bits() {
    assert_eq!(signed_reading(255, DataType::I8), Some(-1));
    assert_eq!(to_le_bytes(255, DataType::I8), (-1i8).to_le_bytes().to_vec());
    assert_eq!(to_be_bytes(255, DataType::I8), (-1i8).to_be_bytes().to_vec());
}

#[test]
fn signed_readings_at_the_sign_boundary() {
    assert_eq!(signed_reading(0x7F, DataType::I8), Some(127));
    assert_eq!(signed_reading(0x80, DataType::I8), Some(-128));
    assert_eq!(signed_reading(0x7FFF, DataType::I16), Some(32767));
    assert_eq!(signed_reading(0x8000, DataType::I16), Some(-32768));
    assert_eq!(signed_reading(0x7FFF_FFFF, DataType::I32), Some(i32::MAX as i128));
    assert_eq!(signed_reading(0x8000_0000, DataType::I32), Some(i32::MIN as i128));
    assert_eq!(signed_reading(0x7FFF_FFFF_FFFF_FFFF, DataType::I64), Some(i64::MAX as i128));
    assert_eq!(signed_reading(0x8000_0000_0000_0000, DataType::I64), Some(i64::MIN as i128));
    assert_eq!(signed_reading(u128::MAX >> 1, DataType::I128), Some(i128::MAX));
    assert_eq!(signed_reading(1u128 << 127, DataType::I128), Some(i128::MIN));
    assert_eq!(signed_reading(u128::MAX, DataType::I128), Some(-1));
}

#[test]
fn signed_readings_agree_with_integer_casts() {
    for v in SAMPLES {
        assert_eq!(signed_reading(v, DataType::I8), Some(v as i8 as i128));
        assert_eq!(signed_reading(v, DataType::I16), Some(v as i16 as i128));
        assert_eq!(signed_reading(v, DataType::I32), Some(v as i32 as i128));
        assert_eq!(signed_reading(v, DataType::I64), Some(v as i64 as i128));
        assert_eq!(signed_reading(v, DataType::I128), Some(v as i128));
    }
}

#[test]
fn only_signed_types_have_a_signed_reading() {
    for t in DataType::all() {
        assert_eq!(signed_reading(0xFF, t).is_some(), t.is_signed());
    }
}

#[test]
fn float_types_decode_their_low_bits() {
    let v: u128 = 0x0123_4567_89AB_CDEF_FEDC_BA98_7654_3210;
    assert_eq!(float_pattern(v, DataType::F32), Some(FloatPattern::Single(0x7654_3210)));
    assert_eq!(
        float_pattern(v, DataType::F64),
        Some(FloatPattern::Double(0xFEDC_BA98_7654_3210))
    );
    assert_eq!(
        float_pattern(0x4049_0FDB, DataType::F32),
        Some(FloatPattern::Single(0x4049_0FDB))
    );
}

#[test]
fn only_float_types_have_a_float_pattern() {
    for t in DataType::all() {
        assert_eq!(float_pattern(0x4049_0FDB, t).is_some(), t.is_float());
    }
}
