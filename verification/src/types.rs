//! Data types and scalar values of table columns.
use vstd::prelude::*;

verus! {

/// The numeric column types.
#[derive(Debug, Clone, Copy, PartialEq, Eq, Structural)]
pub enum NumberDataType {
    UInt8,
    UInt16,
    UInt32,
    UInt64,
    Int8,
    Int16,
    Int32,
    Int64,
    Float32,
    Float64,
}

/// Precision and scale of a decimal type.
#[derive(Debug, Clone, Copy, PartialEq, Eq, Structural)]
pub struct DecimalSize {
    pub precision: u8,
    pub scale: u8,
}

/// The decimal column types, by the width of their representation.
#[derive(Debug, Clone, Copy, PartialEq, Eq, Structural)]
pub enum DecimalDataType {
    Decimal128(DecimalSize),
    Decimal256(DecimalSize),
}

/// The type of a table column.
#[derive(Debug)]
pub enum TableDataType {
    Null,
    EmptyArray,
    EmptyMap,
    Boolean,
    String,
    Number(NumberDataType),
    Decimal(DecimalDataType),
    Timestamp,
    Date,
    Nullable(Box<TableDataType>),
    Array(Box<TableDataType>),
    Variant,
}

/// A leaf field of a table schema.
#[derive(Debug)]
pub struct TableField {
    pub name: String,
    pub data_type: TableDataType,
}

/// A 256-bit signed integer as two 128-bit words: its value is
/// `hi * 2^128 + lo`.
#[derive(Debug, Clone, Copy, PartialEq, Eq, Structural)]
pub struct I256Words {
    pub hi: i128,
    pub lo: u128,
}

/// The value of a 256-bit integer.
pub open spec fn i256_value(v: I256Words) -> int {
    v.hi * 0x1_0000_0000_0000_0000_0000_0000_0000_0000int + v.lo
}

/// A numeric scalar. Floating-point values are held by their IEEE-754 bit
/// patterns.
#[derive(Debug, Clone, Copy, PartialEq, Eq, Structural)]
pub enum NumberScalar {
    UInt8(u8),
    UInt16(u16),
    UInt32(u32),
    UInt64(u64),
    Int8(i8),
    Int16(i16),
    Int32(i32),
    Int64(i64),
    Float32Bits(u32),
    Float64Bits(u64),
}

/// A decimal scalar: the unscaled value and the decimal's size.
#[derive(Debug, Clone, Copy, PartialEq, Eq, Structural)]
pub enum DecimalScalar {
    Decimal128(i128, DecimalSize),
    Decimal256(I256Words, DecimalSize),
}

/// A single value of a column.
#[derive(Debug, Clone, PartialEq, Eq)]
pub enum Scalar {
    Null,
    EmptyArray,
    Number(NumberScalar),
    Decimal(DecimalScalar),
    /// Microseconds since the epoch.
    Timestamp(i64),
    /// Days since the epoch.
    Date(i32),
    Boolean(bool),
    String(Vec<u8>),
}

} // verus!
