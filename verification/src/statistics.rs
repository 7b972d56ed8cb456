//! Conversion of parquet column-chunk statistics into the table's column
//! statistics, according to the logical types of the parquet format.
use vstd::prelude::*;

use crate::types::{
    i256_value, DecimalDataType, DecimalScalar, DecimalSize, I256Words, NumberDataType,
    NumberScalar, Scalar, TableDataType,
};

verus! {

/// A parquet INT96 value: nanoseconds of the day in the first two words
/// (low word first) and the Julian day in the third.
#[derive(Debug, Clone, Copy, PartialEq, Eq, Structural)]
pub struct Int96 {
    pub nanos_low: u32,
    pub nanos_high: u32,
    pub julian_day: u32,
}

/// The statistics of one physical parquet type.
#[derive(Debug, Clone)]
pub struct ValueStatistics<T> {
    pub min: Option<T>,
    pub max: Option<T>,
    pub distinct_count: Option<u64>,
    pub null_count: u64,
}

/// Parquet column-chunk statistics, by physical type. Floating-point values
/// are held by their IEEE-754 bit patterns.
#[derive(Debug, Clone)]
pub enum Statistics {
    Boolean(ValueStatistics<bool>),
    Int32(ValueStatistics<i32>),
    Int64(ValueStatistics<i64>),
    Int96(ValueStatistics<Int96>),
    Float(ValueStatistics<u32>),
    Double(ValueStatistics<u64>),
    ByteArray(ValueStatistics<Vec<u8>>),
    FixedLenByteArray(ValueStatistics<Vec<u8>>),
}

impl Statistics {
    /// Both a minimum and a maximum were recorded.
    pub open spec fn spec_has_min_max_set(&self) -> bool {
        match self {
            Statistics::Boolean(s) => s.min is Some && s.max is Some,
            Statistics::Int32(s) => s.min is Some && s.max is Some,
            Statistics::Int64(s) => s.min is Some && s.max is Some,
            Statistics::Int96(s) => s.min is Some && s.max is Some,
            Statistics::Float(s) => s.min is Some && s.max is Some,
            Statistics::Double(s) => s.min is Some && s.max is Some,
            Statistics::ByteArray(s) => s.min is Some && s.max is Some,
            Statistics::FixedLenByteArray(s) => s.min is Some && s.max is Some,
        }
    }

    pub open spec fn spec_null_count(&self) -> u64 {
        match self {
            Statistics::Boolean(s) => s.null_count,
            Statistics::Int32(s) => s.null_count,
            Statistics::Int64(s) => s.null_count,
            Statistics::Int96(s) => s.null_count,
            Statistics::Float(s) => s.null_count,
            Statistics::Double(s) => s.null_count,
            Statistics::ByteArray(s) => s.null_count,
            Statistics::FixedLenByteArray(s) => s.null_count,
        }
    }

    pub open spec fn spec_distinct_count(&self) -> Option<u64> {
        match self {
            Statistics::Boolean(s) => s.distinct_count,
            Statistics::Int32(s) => s.distinct_count,
            Statistics::Int64(s) => s.distinct_count,
            Statistics::Int96(s) => s.distinct_count,
            Statistics::Float(s) => s.distinct_count,
            Statistics::Double(s) => s.distinct_count,
            Statistics::ByteArray(s) => s.distinct_count,
            Statistics::FixedLenByteArray(s) => s.distinct_count,
        }
    }

    #[verifier::when_used_as_spec(spec_has_min_max_set)]
    pub fn has_min_max_set(&self) -> (r: bool)
        ensures
            r == self.spec_has_min_max_set(),
    {
        match self {
            Statistics::Boolean(s) => s.min.is_some() && s.max.is_some(),
            Statistics::Int32(s) => s.min.is_some() && s.max.is_some(),
            Statistics::Int64(s) => s.min.is_some() && s.max.is_some(),
            Statistics::Int96(s) => s.min.is_some() && s.max.is_some(),
            Statistics::Float(s) => s.min.is_some() && s.max.is_some(),
            Statistics::Double(s) => s.min.is_some() && s.max.is_some(),
            Statistics::ByteArray(s) => s.min.is_some() && s.max.is_some(),
            Statistics::FixedLenByteArray(s) => s.min.is_some() && s.max.is_some(),
        }
    }

    #[verifier::when_used_as_spec(spec_null_count)]
    pub fn null_count(&self) -> (r: u64)
        ensures
            r == self.spec_null_count(),
    {
        match self {
            Statistics::Boolean(s) => s.null_count,
            Statistics::Int32(s) => s.null_count,
            Statistics::Int64(s) => s.null_count,
            Statistics::Int96(s) => s.null_count,
            Statistics::Float(s) => s.null_count,
            Statistics::Double(s) => s.null_count,
            Statistics::ByteArray(s) => s.null_count,
            Statistics::FixedLenByteArray(s) => s.null_count,
        }
    }

    #[verifier::when_used_as_spec(spec_distinct_count)]
    pub fn distinct_count(&self) -> (r: Option<u64>)
        ensures
            r == self.spec_distinct_count(),
    {
        match self {
            Statistics::Boolean(s) => s.distinct_count,
            Statistics::Int32(s) => s.distinct_count,
            Statistics::Int64(s) => s.distinct_count,
            Statistics::Int96(s) => s.distinct_count,
            Statistics::Float(s) => s.distinct_count,
            Statistics::Double(s) => s.distinct_count,
            Statistics::ByteArray(s) => s.distinct_count,
            Statistics::FixedLenByteArray(s) => s.distinct_count,
        }
    }
}

/// The statistics of one column of a block or a page.
#[derive(Debug, Clone)]
pub struct ColumnStatistics {
    pub min: Scalar,
    pub max: Scalar,
    pub null_count: u64,
    pub in_memory_size: u64,
    pub distinct_of_values: Option<u64>,
}

impl ColumnStatistics {
    pub fn new(
        min: Scalar,
        max: Scalar,
        null_count: u64,
        in_memory_size: u64,
        distinct_of_values: Option<u64>,
    ) -> (r: ColumnStatistics)
        ensures
            r == (ColumnStatistics { min, max, null_count, in_memory_size, distinct_of_values }),
    {
        ColumnStatistics { min, max, null_count, in_memory_size, distinct_of_values }
    }
}

/// `256^n`.
pub open spec fn pow256(n: nat) -> nat
    decreases n,
{
    if n == 0 {
        1
    } else {
        256 * pow256((n - 1) as nat)
    }
}

/// The unsigned big-endian value of some bytes.
pub open spec fn be_unsigned(b: Seq<u8>) -> nat
    decreases b.len(),
{
    if b.len() == 0 {
        0
    } else {
        be_unsigned(b.drop_last()) * 256 + b.last() as nat
    }
}

/// The two's complement big-endian value of some bytes.
pub open spec fn be_signed(b: Seq<u8>) -> int {
    if b.len() > 0 && b[0] >= 128 {
        be_unsigned(b) - pow256(b.len())
    } else {
        be_unsigned(b) as int
    }
}

/// `b` widened to `n` bytes by repeating its sign bit in front.
pub open spec fn sign_extend(b: Seq<u8>, n: nat) -> Seq<u8> {
    Seq::new(
        n,
        |i: int|
            if i < n - b.len() {
                if b[0] >= 128 {
                    255u8
                } else {
                    0u8
                }
            } else {
                b[i - (n - b.len())]
            },
    )
}

/// Milliseconds since the epoch of an INT96 timestamp, as parquet computes
/// them: whole seconds of the days since the epoch, plus the nanoseconds of
/// the day (read as a 64-bit two's complement number) divided by a million,
/// rounding toward zero.
pub open spec fn int96_millis(v: Int96) -> int {
    let nanos = ((v.nanos_high as int) * 0x1_0000_0000 + v.nanos_low as int) as i64 as int;
    let seconds = (v.julian_day as int - 2_440_588) * 86_400;
    let millis_of_nanos = if nanos >= 0 {
        nanos / 1_000_000
    } else {
        -((-nanos) / 1_000_000)
    };
    seconds * 1_000 + millis_of_nanos
}

/// The scalar an INT32 statistic stands for under the column type.
pub open spec fn int32_converted(v: i32, typ: TableDataType, r: Scalar) -> bool {
    match typ {
        TableDataType::Number(NumberDataType::Int8) => r == Scalar::Number(NumberScalar::Int8(v as i8)),
        TableDataType::Number(NumberDataType::Int16) => r == Scalar::Number(NumberScalar::Int16(v as i16)),
        TableDataType::Number(NumberDataType::Int32) => r == Scalar::Number(NumberScalar::Int32(v)),
        TableDataType::Number(NumberDataType::UInt8) => r == Scalar::Number(NumberScalar::UInt8(v as u8)),
        TableDataType::Number(NumberDataType::UInt16) => r == Scalar::Number(NumberScalar::UInt16(v as u16)),
        TableDataType::Number(NumberDataType::UInt32) => r == Scalar::Number(NumberScalar::UInt32(v as u32)),
        TableDataType::Date => r == Scalar::Date(v),
        TableDataType::Decimal(DecimalDataType::Decimal128(size)) => r == Scalar::Decimal(
            DecimalScalar::Decimal128(v as i128, size),
        ),
        TableDataType::Decimal(DecimalDataType::Decimal256(size)) => r matches Scalar::Decimal(
            DecimalScalar::Decimal256(w, s),
        ) && s == size && i256_value(w) == v,
        _ => r == Scalar::Null,
    }
}

/// The scalar an INT64 statistic stands for under the column type.
pub open spec fn int64_converted(v: i64, typ: TableDataType, r: Scalar) -> bool {
    match typ {
        TableDataType::Number(NumberDataType::UInt64) => r == Scalar::Number(NumberScalar::UInt64(v as u64)),
        TableDataType::Number(NumberDataType::Int64) => r == Scalar::Number(NumberScalar::Int64(v)),
        TableDataType::Timestamp => r == Scalar::Timestamp(v),
        TableDataType::Decimal(DecimalDataType::Decimal128(size)) => r == Scalar::Decimal(
            DecimalScalar::Decimal128(v as i128, size),
        ),
        TableDataType::Decimal(DecimalDataType::Decimal256(size)) => r matches Scalar::Decimal(
            DecimalScalar::Decimal256(w, s),
        ) && s == size && i256_value(w) == v,
        _ => r == Scalar::Null,
    }
}

/// The scalar a FIXED_LEN_BYTE_ARRAY statistic stands for under the column
/// type: a decimal read as a big-endian two's complement number.
pub open spec fn fixed_len_converted(b: Seq<u8>, typ: TableDataType, r: Scalar) -> bool {
    match typ {
        TableDataType::Decimal(DecimalDataType::Decimal128(size)) => r == Scalar::Decimal(
            DecimalScalar::Decimal128(be_signed(b) as i128, size),
        ),
        TableDataType::Decimal(DecimalDataType::Decimal256(size)) => r matches Scalar::Decimal(
            DecimalScalar::Decimal256(w, s),
        ) && s == size && i256_value(w) == be_signed(b),
        _ => r == Scalar::Null,
    }
}

/// The minimum and maximum scalars that the statistics stand for under the
/// column type; both `Null` when no minimum and maximum were recorded or the
/// type is not one the physical type can hold.
pub open spec fn min_max_converted(s: Statistics, typ: TableDataType, min: Scalar, max: Scalar) -> bool {
    if !s.spec_has_min_max_set() {
        min == Scalar::Null && max == Scalar::Null
    } else {
        match s {
            Statistics::Boolean(v) => min == Scalar::Boolean(v.min->0) && max == Scalar::Boolean(
                v.max->0,
            ),
            Statistics::Int32(v) => int32_converted(v.min->0, typ, min) && int32_converted(
                v.max->0,
                typ,
                max,
            ),
            Statistics::Int64(v) => int64_converted(v.min->0, typ, min) && int64_converted(
                v.max->0,
                typ,
                max,
            ),
            Statistics::Int96(v) => min == Scalar::Timestamp(int96_millis(v.min->0) as i64) && max
                == Scalar::Timestamp(int96_millis(v.max->0) as i64),
            Statistics::Float(v) => min == Scalar::Number(NumberScalar::Float32Bits(v.min->0)) && max
                == Scalar::Number(NumberScalar::Float32Bits(v.max->0)),
            Statistics::Double(v) => min == Scalar::Number(NumberScalar::Float64Bits(v.min->0)) && max
                == Scalar::Number(NumberScalar::Float64Bits(v.max->0)),
            Statistics::ByteArray(v) => (min matches Scalar::String(b) && b@ == v.min->0@) && (
            max matches Scalar::String(b) && b@ == v.max->0@),
            Statistics::FixedLenByteArray(v) => fixed_len_converted(v.min->0@, typ, min)
                && fixed_len_converted(v.max->0@, typ, max),
        }
    }
}

/// The byte strings that decimal statistics can be decoded from: between one
/// byte and the width of the decimal type.
pub open spec fn decodable_decimal_bytes(s: Statistics, typ: TableDataType) -> bool {
    s.spec_has_min_max_set() ==> match s {
        Statistics::FixedLenByteArray(v) => match typ {
            TableDataType::Decimal(DecimalDataType::Decimal128(_)) => 1 <= v.min->0@.len() <= 16
                && 1 <= v.max->0@.len() <= 16,
            TableDataType::Decimal(DecimalDataType::Decimal256(_)) => 1 <= v.min->0@.len() <= 32
                && 1 <= v.max->0@.len() <= 32,
            _ => true,
        },
        _ => true,
    }
}

proof fn lemma_pow256_add(a: nat, b: nat)
    ensures
        pow256(a + b) == pow256(a) * pow256(b),
    decreases a,
{
    if a == 0 {
        assert(pow256(0) == 1);
        assert(a + b == b);
    } else {
        let a1 = (a - 1) as nat;
        lemma_pow256_add(a1, b);
        assert((a + b - 1) as nat == a1 + b);
        assert(pow256(a + b) == 256 * pow256(a1 + b));
        assert(pow256(a) == 256 * pow256(a1));
        let x = pow256(a1);
        let y = pow256(b);
        assert(256 * (x * y) == (256 * x) * y) by (nonlinear_arith);
    }
}

proof fn lemma_be_unsigned_concat(p: Seq<u8>, b: Seq<u8>)
    ensures
        be_unsigned(p + b) == be_unsigned(p) * pow256(b.len()) + be_unsigned(b),
    decreases b.len(),
{
    if b.len() == 0 {
        assert(p + b == p);
        assert(pow256(0) == 1);
        assert(be_unsigned(b) == 0);
        assert(be_unsigned(p) * 1 == be_unsigned(p));
    } else {
        let bp = b.drop_last();
        lemma_be_unsigned_concat(p, bp);
        assert((p + b).drop_last() == p + bp);
        assert((p + b).last() == b.last());
        let up = be_unsigned(p);
        let ub = be_unsigned(bp);
        let pw = pow256(bp.len());
        let l = b.last() as nat;
        assert(be_unsigned(p + b) == be_unsigned(p + bp) * 256 + l);
        assert(be_unsigned(p + bp) == up * pw + ub);
        assert(be_unsigned(b) == ub * 256 + l);
        assert(pow256(b.len()) == 256 * pw);
        assert((up * pw + ub) * 256 + l == up * (256 * pw) + (ub * 256 + l)) by (nonlinear_arith);
    }
}

proof fn lemma_be_unsigned_fill(k: nat, fill: u8)
    requires
        fill == 0 || fill == 255,
    ensures
        be_unsigned(Seq::new(k, |i: int| fill)) == if fill == 0 {
            0
        } else {
            (pow256(k) - 1) as nat
        },
        pow256(k) >= 1,
    decreases k,
{
    if k > 0 {
        lemma_be_unsigned_fill((k - 1) as nat, fill);
        assert(Seq::new(k, |i: int| fill).drop_last() == Seq::new((k - 1) as nat, |i: int| fill));
    }
}

/// Widening a two's complement number by repeating its sign byte keeps its
/// value.
pub proof fn lemma_sign_extend_keeps_value(b: Seq<u8>, n: nat)
    requires
        1 <= b.len() <= n,
    ensures
        sign_extend(b, n).len() == n,
        be_signed(sign_extend(b, n)) == be_signed(b),
{
    let k = (n - b.len()) as nat;
    let fill: u8 = if b[0] >= 128 { 255u8 } else { 0u8 };
    let prefix = Seq::new(k, |i: int| fill);
    let ext = sign_extend(b, n);
    assert(ext =~= prefix + b);
    lemma_be_unsigned_concat(prefix, b);
    lemma_be_unsigned_fill(k, fill);
    lemma_pow256_add(k, b.len());
    assert(ext[0] == if k > 0 { fill } else { b[0] });
    if b[0] >= 128 {
        let pk = pow256(k);
        let pb = pow256(b.len());
        assert(((pk - 1) * pb) as int == pk * pb - pb) by (nonlinear_arith)
            requires
                pk >= 1,
        ;
    }
}

/// Decodes a decimal of up to 16 bytes, big-endian two's complement.
pub fn decode_decimal128_from_bytes(bytes: &Vec<u8>, size: DecimalSize) -> (r: Scalar)
    requires
        1 <= bytes@.len() <= 16,
    ensures
        r == Scalar::Decimal(DecimalScalar::Decimal128(be_signed(bytes@) as i128, size)),
{
    let extended = sign_extend_be(bytes, 16);
    proof {
        lemma_sign_extend_keeps_value(bytes@, 16);
    }
    let v = i128_from_be_bytes(&extended);
    Scalar::Decimal(DecimalScalar::Decimal128(v, size))
}

/// Decodes a decimal of up to 32 bytes, big-endian two's complement.
pub fn decode_decimal256_from_bytes(bytes: &Vec<u8>, size: DecimalSize) -> (r: Scalar)
    requires
        1 <= bytes@.len() <= 32,
    ensures
        r matches Scalar::Decimal(DecimalScalar::Decimal256(w, s)) && s == size && i256_value(w)
            == be_signed(bytes@),
{
    let extended = sign_extend_be(bytes, 32);
    proof {
        lemma_sign_extend_keeps_value(bytes@, 32);
    }
    let v = i256_from_be_bytes(&extended);
    Scalar::Decimal(DecimalScalar::Decimal256(v, size))
}

/// `bytes` widened to `n` bytes by repeating the sign bit in front.
fn sign_extend_be(bytes: &Vec<u8>, n: usize) -> (r: Vec<u8>)
    requires
        1 <= bytes@.len() <= n,
    ensures
        r@ == sign_extend(bytes@, n as nat),
{
    let is_negative = bytes[0] >= 128u8;
    let fill: u8 = if is_negative { 255u8 } else { 0u8 };
    let pad = n - bytes.len();
    let mut r: Vec<u8> = Vec::with_capacity(n);
    let mut i: usize = 0;
    while i < n
        invariant
            0 <= i <= n,
            pad == n - bytes@.len(),
            1 <= bytes@.len() <= n,
            fill == (if bytes@[0] >= 128 { 255u8 } else { 0u8 }),
            r@ == sign_extend(bytes@, n as nat).take(i as int),
        decreases n - i,
    {
        if i < pad {
            r.push(fill);
        } else {
            r.push(bytes[i - pad]);
        }
        assert(r@ == sign_extend(bytes@, n as nat).take(i + 1));
        i = i + 1;
    }
    assert(sign_extend(bytes@, n as nat).take(n as int) == sign_extend(bytes@, n as nat));
    r
}

/// Converts parquet statistics of a column chunk into column statistics of
/// the table, according to the column's type.
pub fn convert_column_statistics(s: &Statistics, typ: &TableDataType) -> (r: ColumnStatistics)
    requires
        decodable_decimal_bytes(*s, *typ),
    ensures
        min_max_converted(*s, *typ, r.min, r.max),
        r.null_count == s.spec_null_count(),
        r.in_memory_size == 0,
        r.distinct_of_values == s.spec_distinct_count(),
{
    let (max, min) = if s.has_min_max_set() {
        match s {
            Statistics::Boolean(s) => (
                Scalar::Boolean(*s.max.as_ref().unwrap()),
                Scalar::Boolean(*s.min.as_ref().unwrap()),
            ),
            Statistics::Int32(s) => {
                let (max, min) = (*s.max.as_ref().unwrap(), *s.min.as_ref().unwrap());
                (convert_int32(max, typ), convert_int32(min, typ))
            },
            Statistics::Int64(s) => {
                let (max, min) = (*s.max.as_ref().unwrap(), *s.min.as_ref().unwrap());
                (convert_int64(max, typ), convert_int64(min, typ))
            },
            Statistics::Int96(s) => (
                Scalar::Timestamp(int96_to_i64(*s.max.as_ref().unwrap())),
                Scalar::Timestamp(int96_to_i64(*s.min.as_ref().unwrap())),
            ),
            Statistics::Float(s) => (
                Scalar::Number(NumberScalar::Float32Bits(*s.max.as_ref().unwrap())),
                Scalar::Number(NumberScalar::Float32Bits(*s.min.as_ref().unwrap())),
            ),
            Statistics::Double(s) => (
                Scalar::Number(NumberScalar::Float64Bits(*s.max.as_ref().unwrap())),
                Scalar::Number(NumberScalar::Float64Bits(*s.min.as_ref().unwrap())),
            ),
            Statistics::ByteArray(s) => {
                let max = s.max.as_ref().unwrap().clone();
                let min = s.min.as_ref().unwrap().clone();
                assert(max@ =~= s.max->0@);
                assert(min@ =~= s.min->0@);
                (Scalar::String(max), Scalar::String(min))
            },
            Statistics::FixedLenByteArray(s) => {
                let (max, min) = (s.max.as_ref().unwrap(), s.min.as_ref().unwrap());
                match typ {
                    TableDataType::Decimal(DecimalDataType::Decimal128(size)) => (
                        decode_decimal128_from_bytes(max, *size),
                        decode_decimal128_from_bytes(min, *size),
                    ),
                    TableDataType::Decimal(DecimalDataType::Decimal256(size)) => (
                        decode_decimal256_from_bytes(max, *size),
                        decode_decimal256_from_bytes(min, *size),
                    ),
                    _ => (Scalar::Null, Scalar::Null),
                }
            },
        }
    } else {
        (Scalar::Null, Scalar::Null)
    };
    ColumnStatistics::new(
        min,
        max,
        s.null_count(),
        0,  // this field is not used.
        s.distinct_count(),
    )
}

/// The scalar of an INT32 statistic under the column type.
fn convert_int32(v: i32, typ: &TableDataType) -> (r: Scalar)
    ensures
        int32_converted(v, *typ, r),
{
    match typ {
        TableDataType::Number(NumberDataType::Int8) => Scalar::Number(NumberScalar::Int8(v as i8)),
        TableDataType::Number(NumberDataType::Int16) => Scalar::Number(NumberScalar::Int16(v as i16)),
        TableDataType::Number(NumberDataType::Int32) => Scalar::Number(NumberScalar::Int32(v)),
        TableDataType::Number(NumberDataType::UInt8) => Scalar::Number(NumberScalar::UInt8(v as u8)),
        TableDataType::Number(NumberDataType::UInt16) => Scalar::Number(NumberScalar::UInt16(v as u16)),
        TableDataType::Number(NumberDataType::UInt32) => Scalar::Number(NumberScalar::UInt32(v as u32)),
        TableDataType::Date => Scalar::Date(v),
        TableDataType::Decimal(DecimalDataType::Decimal128(size)) => Scalar::Decimal(
            DecimalScalar::Decimal128(v as i128, *size),
        ),
        TableDataType::Decimal(DecimalDataType::Decimal256(size)) => Scalar::Decimal(
            DecimalScalar::Decimal256(i256_from_i64(v as i64), *size),
        ),
        _ => Scalar::Null,
    }
}

/// The scalar of an INT64 statistic under the column type.
fn convert_int64(v: i64, typ: &TableDataType) -> (r: Scalar)
    ensures
        int64_converted(v, *typ, r),
{
    match typ {
        TableDataType::Number(NumberDataType::UInt64) => Scalar::Number(NumberScalar::UInt64(v as u64)),
        TableDataType::Number(NumberDataType::Int64) => Scalar::Number(NumberScalar::Int64(v)),
        TableDataType::Timestamp => Scalar::Timestamp(v),
        TableDataType::Decimal(DecimalDataType::Decimal128(size)) => Scalar::Decimal(
            DecimalScalar::Decimal128(v as i128, *size),
        ),
        TableDataType::Decimal(DecimalDataType::Decimal256(size)) => Scalar::Decimal(
            DecimalScalar::Decimal256(i256_from_i64(v), *size),
        ),
        _ => Scalar::Null,
    }
}

/// Calls `Int96::to_i64` of the parquet crate on the three words. The
/// crate's source computes the milliseconds since the epoch as
/// `int96_millis` states.
#[verifier::external_body]
fn int96_to_i64(v: Int96) -> (r: i64)
    ensures
        r == int96_millis(v),
{
    let mut value = parquet::data_type::Int96::new();
    value.set_data(v.nanos_low, v.nanos_high, v.julian_day);
    value.to_i64()
}

/// Calls `From<i64>` of `ethnum::I256` and hands out its two words; the
/// 256-bit integer has the value of `x`.
#[verifier::external_body]
fn i256_from_i64(x: i64) -> (r: I256Words)
    ensures
        i256_value(r) == x,
{
    let (hi, lo) = ethnum::I256::from(x).into_words();
    I256Words { hi, lo: lo as u128 }
}

/// Calls `ethnum::I256::from_be_bytes` on 32 bytes and hands out the two
/// words of the result, whose value is the bytes' big-endian two's
/// complement value.
#[verifier::external_body]
fn i256_from_be_bytes(bytes: &Vec<u8>) -> (r: I256Words)
    requires
        bytes@.len() == 32,
    ensures
        i256_value(r) == be_signed(bytes@),
{
    let array: [u8; 32] = bytes.as_slice().try_into().unwrap();
    let (hi, lo) = ethnum::I256::from_be_bytes(array).into_words();
    I256Words { hi, lo: lo as u128 }
}

/// Calls `i128::from_be_bytes` on 16 bytes, which std documents as reading
/// the bytes as a big-endian two's complement integer.
#[verifier::external_body]
fn i128_from_be_bytes(bytes: &Vec<u8>) -> (r: i128)
    requires
        bytes@.len() == 16,
    ensures
        r == be_signed(bytes@),
{
    let array: [u8; 16] = bytes.as_slice().try_into().unwrap();
    i128::from_be_bytes(array)
}

} // verus!
