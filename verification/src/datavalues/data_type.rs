//! The types a column can have.

use vstd::prelude::*;

verus! {

/// The type of a column: an integer of fixed width, signed or unsigned.
#[derive(Clone, Copy, Debug, PartialEq, Eq, Structural)]
pub enum DataType {
    Int8,
    Int16,
    Int32,
    Int64,
    UInt8,
    UInt16,
    UInt32,
    UInt64,
}

impl DataType {
    /// The least value of the type.
    pub open spec fn min_value(self) -> int {
        match self {
            DataType::Int8 => i8::MIN as int,
            DataType::Int16 => i16::MIN as int,
            DataType::Int32 => i32::MIN as int,
            DataType::Int64 => i64::MIN as int,
            DataType::UInt8 => 0,
            DataType::UInt16 => 0,
            DataType::UInt32 => 0,
            DataType::UInt64 => 0,
        }
    }

    /// The greatest value of the type.
    pub open spec fn max_value(self) -> int {
        match self {
            DataType::Int8 => i8::MAX as int,
            DataType::Int16 => i16::MAX as int,
            DataType::Int32 => i32::MAX as int,
            DataType::Int64 => i64::MAX as int,
            DataType::UInt8 => u8::MAX as int,
            DataType::UInt16 => u16::MAX as int,
            DataType::UInt32 => u32::MAX as int,
            DataType::UInt64 => u64::MAX as int,
        }
    }

    /// Whether `v` is a value of the type.
    pub open spec fn holds(self, v: int) -> bool {
        self.min_value() <= v <= self.max_value()
    }

    /// Tells whether `v` is a value of the type.
    pub fn contains(self, v: i128) -> (b: bool)
        ensures
            b == self.holds(v as int),
    {
        match self {
            DataType::Int8 => -0x80 <= v && v <= 0x7f,
            DataType::Int16 => -0x8000 <= v && v <= 0x7fff,
            DataType::Int32 => -0x8000_0000 <= v && v <= 0x7fff_ffff,
            DataType::Int64 => -0x8000_0000_0000_0000 <= v && v <= 0x7fff_ffff_ffff_ffff,
            DataType::UInt8 => 0 <= v && v <= 0xff,
            DataType::UInt16 => 0 <= v && v <= 0xffff,
            DataType::UInt32 => 0 <= v && v <= 0xffff_ffff,
            DataType::UInt64 => 0 <= v && v <= 0xffff_ffff_ffff_ffff,
        }
    }
}

} // verus!
