use databend_core::statistics::{
    convert_column_statistics, decode_decimal128_from_bytes, decode_decimal256_from_bytes, Int96,
    Statistics, ValueStatistics,
};
use databend_core::types::{
    DecimalDataType, DecimalScalar, DecimalSize, I256Words, NumberDataType, NumberScalar, Scalar,
    TableDataType,
};

fn stats<T>(min: T, max: T) -> ValueStatistics<T> {
    ValueStatistics { min: Some(min), max: Some(max), distinct_count: Some(3), null_count: 2 }
}

const SIZE: DecimalSize = DecimalSize { precision: 10, scale: 2 };

#[test]
fn int32_statistics_follow_the_column_type() {
    let s = Statistics::Int32(stats(-1, 300));
    let c = convert_column_statistics(&s, &TableDataType::Number(NumberDataType::Int8));
    assert_eq!(c.min, Scalar::Number(NumberScalar::Int8(-1)));
    assert_eq!(c.max, Scalar::Number(NumberScalar::Int8(300i32 as i8)));
    assert_eq!(c.null_count, 2);
    assert_eq!(c.in_memory_size, 0);
    assert_eq!(c.distinct_of_values, Some(3));
    let c = convert_column_statistics(&s, &TableDataType::Number(NumberDataType::UInt16));
    assert_eq!(c.min, Scalar::Number(NumberScalar::UInt16(u16::MAX)));
    let c = convert_column_statistics(&s, &TableDataType::Date);
    assert_eq!(c.max, Scalar::Date(300));
    let c = convert_column_statistics(&s, &TableDataType::String);
    assert_eq!(c.max, Scalar::Null);
    assert_eq!(c.min, Scalar::Null);
}

#[test]
fn int32_decimal_statistics() {
    let s = Statistics::Int32(stats(-1, 5));
    let c = convert_column_statistics(&s, &TableDataType::Decimal(DecimalDataType::Decimal128(SIZE)));
    assert_eq!(c.min, Scalar::Decimal(DecimalScalar::Decimal128(-1, SIZE)));
    let c = convert_column_statistics(&s, &TableDataType::Decimal(DecimalDataType::Decimal256(SIZE)));
    assert_eq!(
        c.min,
        Scalar::Decimal(DecimalScalar::Decimal256(I256Words { hi: -1, lo: u128::MAX }, SIZE))
    );
    assert_eq!(c.max, Scalar::Decimal(DecimalScalar::Decimal256(I256Words { hi: 0, lo: 5 }, SIZE)));
}

#[test]
fn int64_statistics_follow_the_column_type() {
    let s = Statistics::Int64(stats(-2, 9));
    let c = convert_column_statistics(&s, &TableDataType::Number(NumberDataType::UInt64));
    assert_eq!(c.min, Scalar::Number(NumberScalar::UInt64(u64::MAX - 1)));
    let c = convert_column_statistics(&s, &TableDataType::Timestamp);
    assert_eq!(c.max, Scalar::Timestamp(9));
    let c = convert_column_statistics(&s, &TableDataType::Number(NumberDataType::Int64));
    assert_eq!(c.min, Scalar::Number(NumberScalar::Int64(-2)));
    let c = convert_column_statistics(&s, &TableDataType::Boolean);
    assert_eq!(c.min, Scalar::Null);
}

#[test]
fn int96_statistics_are_millisecond_timestamps() {
    // Julian day of the epoch plus one day, 1.5 seconds into the day.
    let day = Int96 { nanos_low: 1_500_000_000u64 as u32, nanos_high: 0, julian_day: 2_440_589 };
    let epoch = Int96 { nanos_low: 0, nanos_high: 0, julian_day: 2_440_588 };
    let s = Statistics::Int96(stats(epoch, day));
    let c = convert_column_statistics(&s, &TableDataType::Timestamp);
    assert_eq!(c.min, Scalar::Timestamp(0));
    assert_eq!(c.max, Scalar::Timestamp(86_400_000 + 1_500));
}

#[test]
fn boolean_float_and_string_statistics() {
    let c = convert_column_statistics(&Statistics::Boolean(stats(false, true)), &TableDataType::Boolean);
    assert_eq!((c.min, c.max), (Scalar::Boolean(false), Scalar::Boolean(true)));
    let c = convert_column_statistics(
        &Statistics::Float(stats(1.5f32.to_bits(), 2.5f32.to_bits())),
        &TableDataType::Number(NumberDataType::Float32),
    );
    assert_eq!(c.max, Scalar::Number(NumberScalar::Float32Bits(2.5f32.to_bits())));
    let c = convert_column_statistics(
        &Statistics::Double(stats(1.5f64.to_bits(), 2.5f64.to_bits())),
        &TableDataType::Number(NumberDataType::Float64),
    );
    assert_eq!(c.min, Scalar::Number(NumberScalar::Float64Bits(1.5f64.to_bits())));
    let c = convert_column_statistics(
        &Statistics::ByteArray(stats(b"abc".to_vec(), b"xyz".to_vec())),
        &TableDataType::String,
    );
    assert_eq!(c.min, Scalar::String(b"abc".to_vec()));
    assert_eq!(c.max, Scalar::String(b"xyz".to_vec()));
}

#[test]
fn missing_min_max_gives_null_statistics() {
    let s = Statistics::Int32(ValueStatistics { min: None, max: Some(3), distinct_count: None, null_count: 7 });
    let c = convert_column_statistics(&s, &TableDataType::Number(NumberDataType::Int32));
    assert_eq!((c.min, c.max), (Scalar::Null, Scalar::Null));
    assert_eq!(c.null_count, 7);
    assert_eq!(c.distinct_of_values, None);
}

#[test]
fn fixed_len_decimals_are_big_endian_twos_complement() {
    let s = Statistics::FixedLenByteArray(stats(vec![0xff, 0x38], vec![0x01, 0x00]));
    let c = convert_column_statistics(&s, &TableDataType::Decimal(DecimalDataType::Decimal128(SIZE)));
    assert_eq!(c.min, Scalar::Decimal(DecimalScalar::Decimal128(-200, SIZE)));
    assert_eq!(c.max, Scalar::Decimal(DecimalScalar::Decimal128(256, SIZE)));
    let c = convert_column_statistics(&s, &TableDataType::Decimal(DecimalDataType::Decimal256(SIZE)));
    assert_eq!(
        c.min,
        Scalar::Decimal(DecimalScalar::Decimal256(I256Words { hi: -1, lo: u128::MAX - 199 }, SIZE))
    );
    let c = convert_column_statistics(&s, &TableDataType::String);
    assert_eq!(c.min, Scalar::Null);
}

#[test]
fn decimal_decoding_of_full_width_values() {
    let mut bytes = vec![0u8; 16];
    bytes[0] = 0x80;
    assert_eq!(
        decode_decimal128_from_bytes(&bytes, SIZE),
        Scalar::Decimal(DecimalScalar::Decimal128(i128::MIN, SIZE))
    );
    let mut bytes = vec![0u8; 32];
    bytes[15] = 1;
    bytes[31] = 2;
    assert_eq!(
        decode_decimal256_from_bytes(&bytes, SIZE),
        Scalar::Decimal(DecimalScalar::Decimal256(I256Words { hi: 1, lo: 2 }, SIZE))
    );
}
