//! Scalar values.

use crate::datavalues::data_type::DataType;
use vstd::prelude::*;

verus! {

/// One value of a column, tagged with its type.
#[derive(Clone, Copy, Debug, PartialEq, Eq, Structural)]
pub enum DataValue {
    Int8(i8),
    Int16(i16),
    Int32(i32),
    Int64(i64),
    UInt8(u8),
    UInt16(u16),
    UInt32(u32),
    UInt64(u64),
}

impl DataValue {
    /// The type of the value.
    pub open spec fn ty(self) -> DataType {
        match self {
            DataValue::Int8(_) => DataType::Int8,
            DataValue::Int16(_) => DataType::Int16,
            DataValue::Int32(_) => DataType::Int32,
            DataValue::Int64(_) => DataType::Int64,
            DataValue::UInt8(_) => DataType::UInt8,
            DataValue::UInt16(_) => DataType::UInt16,
            DataValue::UInt32(_) => DataType::UInt32,
            DataValue::UInt64(_) => DataType::UInt64,
        }
    }

    /// The number the value stands for.
    pub open spec fn as_int(self) -> int {
        match self {
            DataValue::Int8(v) => v as int,
            DataValue::Int16(v) => v as int,
            DataValue::Int32(v) => v as int,
            DataValue::Int64(v) => v as int,
            DataValue::UInt8(v) => v as int,
            DataValue::UInt16(v) => v as int,
            DataValue::UInt32(v) => v as int,
            DataValue::UInt64(v) => v as int,
        }
    }

    /// The value of type `data_type` that stands for `v`.
    pub open spec fn of(data_type: DataType, v: int) -> DataValue {
        match data_type {
            DataType::Int8 => DataValue::Int8(v as i8),
            DataType::Int16 => DataValue::Int16(v as i16),
            DataType::Int32 => DataValue::Int32(v as i32),
            DataType::Int64 => DataValue::Int64(v as i64),
            DataType::UInt8 => DataValue::UInt8(v as u8),
            DataType::UInt16 => DataValue::UInt16(v as u16),
            DataType::UInt32 => DataValue::UInt32(v as u32),
            DataType::UInt64 => DataValue::UInt64(v as u64),
        }
    }

    /// Returns the type of the value.
    pub fn data_type(&self) -> (t: DataType)
        ensures
            t == self.ty(),
    {
        match self {
            DataValue::Int8(_) => DataType::Int8,
            DataValue::Int16(_) => DataType::Int16,
            DataValue::Int32(_) => DataType::Int32,
            DataValue::Int64(_) => DataType::Int64,
            DataValue::UInt8(_) => DataType::UInt8,
            DataValue::UInt16(_) => DataType::UInt16,
            DataValue::UInt32(_) => DataType::UInt32,
            DataValue::UInt64(_) => DataType::UInt64,
        }
    }

    /// Returns the number the value stands for, widened so that every type fits.
    pub fn widen(&self) -> (v: i128)
        ensures
            v == self.as_int(),
            self.ty().holds(v as int),
    {
        match self {
            DataValue::Int8(v) => *v as i128,
            DataValue::Int16(v) => *v as i128,
            DataValue::Int32(v) => *v as i128,
            DataValue::Int64(v) => *v as i128,
            DataValue::UInt8(v) => *v as i128,
            DataValue::UInt16(v) => *v as i128,
            DataValue::UInt32(v) => *v as i128,
            DataValue::UInt64(v) => *v as i128,
        }
    }

    /// Narrows `v` to a value of type `data_type`; `None` where the type
    /// has no such value.
    pub fn narrow(data_type: DataType, v: i128) -> (r: Option<DataValue>)
        ensures
            r is Some <==> data_type.holds(v as int),
            r matches Some(value) ==> {
                &&& value == DataValue::of(data_type, v as int)
                &&& value.ty() == data_type
                &&& value.as_int() == v
            },
    {
        if !data_type.contains(v) {
            return None;
        }
        Some(
            match data_type {
                DataType::Int8 => DataValue::Int8(v as i8),
                DataType::Int16 => DataValue::Int16(v as i16),
                DataType::Int32 => DataValue::Int32(v as i32),
                DataType::Int64 => DataValue::Int64(v as i64),
                DataType::UInt8 => DataValue::UInt8(v as u8),
                DataType::UInt16 => DataValue::UInt16(v as u16),
                DataType::UInt32 => DataValue::UInt32(v as u32),
                DataType::UInt64 => DataValue::UInt64(v as u64),
            },
        )
    }
}

} // verus!
