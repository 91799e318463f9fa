use estream_runtime::industrial::config::WordOrder;
use estream_runtime::industrial::text::{decimal_string, micro_string};
use estream_runtime::industrial::types::DataType;
use estream_runtime::industrial::value::{
    decode_words, f32_bits_to_micro, f64_bits_to_micro, Reading, RegisterValue,
};

fn as_f64(r: Reading) -> f64 {
    match r {
        Reading::Number(v) => v as f64 / 1_000_000.0,
        Reading::NotANumber => f64::NAN,
    }
}

fn micro(x: f64) -> i64 {
    (x * 1_000_000.0).round() as i64
}

#[test]
fn test_register_value_scaling() {
    let val = RegisterValue::I16(250);
    assert_eq!(as_f64(val.scaled(micro(0.1), micro(0.0))), 25.0);
    assert_eq!(as_f64(val.scaled(micro(0.1), micro(5.0))), 30.0);
}

#[test]
fn scaling_is_exact_for_whole_raw_values() {
    assert_eq!(RegisterValue::U16(100).scaled(100_000, 0), Reading::Number(10_000_000));
    assert_eq!(RegisterValue::U16(200).scaled(100_000, 0), Reading::Number(20_000_000));
    assert_eq!(RegisterValue::I16(-3).scaled(333_333, 1), Reading::Number(-999_998));
    assert_eq!(RegisterValue::U32(u32::MAX).scaled(1_000_000, 0), Reading::Number(4_294_967_295_000_000));
    assert_eq!(RegisterValue::I32(i32::MIN).scaled(-1_000_000, 0), Reading::Number(2_147_483_648_000_000));
    assert_eq!(RegisterValue::Bool(true).scaled(2_500_000, 0), Reading::Number(2_500_000));
    assert_eq!(RegisterValue::Bool(false).scaled(2_500_000, 7), Reading::Number(7));
    assert_eq!(
        RegisterValue::U32(u32::MAX).scaled(i64::MAX, i64::MAX),
        Reading::Number(4_294_967_295i128 * (i64::MAX as i128) + (i64::MAX as i128))
    );
    assert_eq!(RegisterValue::String(vec![65, 66]).scaled(1_000_000, 0), Reading::NotANumber);
}

#[test]
fn readings_before_scaling() {
    assert_eq!(RegisterValue::U16(7).as_f64(), Reading::Number(7_000_000));
    assert_eq!(RegisterValue::I16(-7).as_f64(), Reading::Number(-7_000_000));
    assert_eq!(RegisterValue::Bool(true).as_f64(), Reading::Number(1_000_000));
    assert_eq!(RegisterValue::String(vec![]).as_f64(), Reading::NotANumber);
}

#[test]
fn single_precision_patterns() {
    assert_eq!(f32_bits_to_micro(1.0f32.to_bits()), Reading::Number(1_000_000));
    assert_eq!(f32_bits_to_micro((-2.5f32).to_bits()), Reading::Number(-2_500_000));
    assert_eq!(f32_bits_to_micro(0.0f32.to_bits()), Reading::Number(0));
    assert_eq!(f32_bits_to_micro((-0.0f32).to_bits()), Reading::Number(0));
    assert_eq!(f32_bits_to_micro(0.5f32.to_bits()), Reading::Number(500_000));
    assert_eq!(f32_bits_to_micro(1234.0f32.to_bits()), Reading::Number(1_234_000_000));
    assert_eq!(f32_bits_to_micro(f32::NAN.to_bits()), Reading::NotANumber);
    assert_eq!(f32_bits_to_micro(f32::INFINITY.to_bits()), Reading::Number(i64::MAX as i128));
    assert_eq!(f32_bits_to_micro(f32::NEG_INFINITY.to_bits()), Reading::Number(-(i64::MAX as i128)));
    assert_eq!(f32_bits_to_micro(f32::MAX.to_bits()), Reading::Number(i64::MAX as i128));
    assert_eq!(f32_bits_to_micro(f32::MIN_POSITIVE.to_bits()), Reading::Number(0));
    assert_eq!(f32_bits_to_micro(1u32), Reading::Number(0));
    // 0.1f32 is a little above 0.1
    assert_eq!(f32_bits_to_micro(0.1f32.to_bits()), Reading::Number(100_000));
}

#[test]
fn double_precision_patterns() {
    assert_eq!(f64_bits_to_micro(1.0f64.to_bits()), Reading::Number(1_000_000));
    assert_eq!(f64_bits_to_micro((-80.25f64).to_bits()), Reading::Number(-80_250_000));
    assert_eq!(f64_bits_to_micro(1e-7f64.to_bits()), Reading::Number(0));
    assert_eq!(f64_bits_to_micro(123456.789f64.to_bits()), Reading::Number(123_456_789_000));
    assert_eq!(f64_bits_to_micro(f64::NAN.to_bits()), Reading::NotANumber);
    assert_eq!(f64_bits_to_micro(f64::INFINITY.to_bits()), Reading::Number(i64::MAX as i128));
    assert_eq!(f64_bits_to_micro(1e300f64.to_bits()), Reading::Number(i64::MAX as i128));
    assert_eq!(f64_bits_to_micro((-1e300f64).to_bits()), Reading::Number(-(i64::MAX as i128)));
    assert_eq!(f64_bits_to_micro(9e12f64.to_bits()), Reading::Number(9_000_000_000_000_000_000));
    assert_eq!(f64_bits_to_micro(5e-324f64.to_bits()), Reading::Number(0));
    // truncation toward zero: 0.1 is stored a little above 0.1, 0.3 a little below 0.3
    assert_eq!(f64_bits_to_micro(0.1f64.to_bits()), Reading::Number(100_000));
    assert_eq!(f64_bits_to_micro(0.3f64.to_bits()), Reading::Number(299_999));
    assert_eq!(f64_bits_to_micro((-0.3f64).to_bits()), Reading::Number(-299_999));
}

#[test]
fn patterns_agree_with_the_floats_they_spell() {
    let samples = [0.0f64, 1.5, -1.5, 3.25, 1000.125, -273.15, 65535.0, 1e-3, 2.5e9, 7.0e12];
    for x in samples.iter() {
        let want = (x * 1_000_000.0).trunc() as i128;
        match f64_bits_to_micro(x.to_bits()) {
            Reading::Number(got) => assert!((got - want).abs() <= 1, "{} gave {}, not {}", x, got, want),
            Reading::NotANumber => panic!("{} is a number", x),
        }
    }
}

#[test]
fn decoding_single_words() {
    assert!(matches!(decode_words(DataType::UInt16, WordOrder::BigEndian, &[0xFFFF]), Some(RegisterValue::U16(0xFFFF))));
    assert!(matches!(decode_words(DataType::Int16, WordOrder::BigEndian, &[0xFFFF]), Some(RegisterValue::I16(-1))));
    assert!(matches!(decode_words(DataType::Int16, WordOrder::BigEndian, &[0x8000]), Some(RegisterValue::I16(i16::MIN))));
    assert!(matches!(decode_words(DataType::Int16, WordOrder::BigEndian, &[0x7FFF]), Some(RegisterValue::I16(i16::MAX))));
    assert!(matches!(decode_words(DataType::Boolean, WordOrder::BigEndian, &[0]), Some(RegisterValue::Bool(false))));
    assert!(matches!(decode_words(DataType::Boolean, WordOrder::BigEndian, &[2]), Some(RegisterValue::Bool(true))));
}

#[test]
fn decoding_follows_the_word_order() {
    assert!(matches!(
        decode_words(DataType::UInt32, WordOrder::BigEndian, &[0x1234, 0x5678]),
        Some(RegisterValue::U32(0x1234_5678))
    ));
    assert!(matches!(
        decode_words(DataType::UInt32, WordOrder::LittleEndian, &[0x1234, 0x5678]),
        Some(RegisterValue::U32(0x5678_1234))
    ));
    assert!(matches!(
        decode_words(DataType::Int32, WordOrder::BigEndian, &[0xFFFF, 0xFFFE]),
        Some(RegisterValue::I32(-2))
    ));
    assert!(matches!(
        decode_words(DataType::Int32, WordOrder::LittleEndian, &[0x0000, 0x8000]),
        Some(RegisterValue::I32(i32::MIN))
    ));
    let bits = 1.5f32.to_bits();
    match decode_words(DataType::Float32, WordOrder::BigEndian, &[(bits >> 16) as u16, bits as u16]) {
        Some(RegisterValue::F32(b)) => assert_eq!(b, bits),
        _ => panic!("not a float"),
    }
    let bits = (-80.25f64).to_bits();
    let words = [(bits >> 48) as u16, (bits >> 32) as u16, (bits >> 16) as u16, bits as u16];
    match decode_words(DataType::Float64, WordOrder::BigEndian, &words) {
        Some(RegisterValue::F64(b)) => assert_eq!(b, bits),
        _ => panic!("not a float"),
    }
    let reversed = [words[3], words[2], words[1], words[0]];
    match decode_words(DataType::Float64, WordOrder::LittleEndian, &reversed) {
        Some(v) => assert_eq!(v.as_f64(), Reading::Number(-80_250_000)),
        None => panic!("not decoded"),
    }
}

#[test]
fn decoding_text_and_wrong_lengths() {
    let mut words = [0u16; 16];
    words[0] = 0x4142;
    words[1] = 0x4300;
    match decode_words(DataType::String, WordOrder::BigEndian, &words) {
        Some(RegisterValue::String(bytes)) => {
            assert_eq!(bytes.len(), 32);
            assert_eq!(&bytes[..4], &[0x41, 0x42, 0x43, 0x00]);
        }
        _ => panic!("not a text"),
    }
    assert!(decode_words(DataType::UInt16, WordOrder::BigEndian, &[]).is_none());
    assert!(decode_words(DataType::UInt16, WordOrder::BigEndian, &[1, 2]).is_none());
    assert!(decode_words(DataType::UInt32, WordOrder::BigEndian, &[1]).is_none());
    assert!(decode_words(DataType::Float64, WordOrder::BigEndian, &[1, 2, 3]).is_none());
    assert!(decode_words(DataType::String, WordOrder::BigEndian, &[0; 15]).is_none());
}

#[test]
fn numbers_as_text() {
    assert_eq!(decimal_string(0), "0");
    assert_eq!(decimal_string(7), "7");
    assert_eq!(decimal_string(1234567890), "1234567890");
    assert_eq!(decimal_string(u128::MAX), "340282366920938463463374607431768211455");
    assert_eq!(micro_string(0), "0");
    assert_eq!(micro_string(81_000_000), "81");
    assert_eq!(micro_string(81_500_000), "81.5");
    assert_eq!(micro_string(-81_500_000), "-81.5");
    assert_eq!(micro_string(100), "0.0001");
    assert_eq!(micro_string(1), "0.000001");
    assert_eq!(micro_string(-1), "-0.000001");
    assert_eq!(micro_string(123_456_789), "123.456789");
    assert_eq!(micro_string(10_100_000), "10.1");
    assert_eq!(micro_string(i128::MIN), "-170141183460469231731687303715884.105728");
}
