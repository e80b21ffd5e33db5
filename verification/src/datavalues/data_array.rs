//! Column arrays: the values of one column of a block.

use crate::datavalues::data_type::DataType;
use crate::datavalues::data_value::DataValue;
use vstd::prelude::*;

verus! {

/// The values of one column, all of one type.
#[derive(Debug, PartialEq, Eq)]
pub enum DataArray {
    Int8(Vec<i8>),
    Int16(Vec<i16>),
    Int32(Vec<i32>),
    Int64(Vec<i64>),
    UInt8(Vec<u8>),
    UInt16(Vec<u16>),
    UInt32(Vec<u32>),
    UInt64(Vec<u64>),
}

/// A [`DataArray`] as contracts see it: its type and its values as numbers, row by row.
pub struct ArrayView {
    pub data_type: DataType,
    pub values: Seq<int>,
}

impl View for DataArray {
    type V = ArrayView;

    open spec fn view(&self) -> ArrayView {
        match self {
            DataArray::Int8(v) => ArrayView {
                data_type: DataType::Int8,
                values: v@.map_values(|x: i8| x as int),
            },
            DataArray::Int16(v) => ArrayView {
                data_type: DataType::Int16,
                values: v@.map_values(|x: i16| x as int),
            },
            DataArray::Int32(v) => ArrayView {
                data_type: DataType::Int32,
                values: v@.map_values(|x: i32| x as int),
            },
            DataArray::Int64(v) => ArrayView {
                data_type: DataType::Int64,
                values: v@.map_values(|x: i64| x as int),
            },
            DataArray::UInt8(v) => ArrayView {
                data_type: DataType::UInt8,
                values: v@.map_values(|x: u8| x as int),
            },
            DataArray::UInt16(v) => ArrayView {
                data_type: DataType::UInt16,
                values: v@.map_values(|x: u16| x as int),
            },
            DataArray::UInt32(v) => ArrayView {
                data_type: DataType::UInt32,
                values: v@.map_values(|x: u32| x as int),
            },
            DataArray::UInt64(v) => ArrayView {
                data_type: DataType::UInt64,
                values: v@.map_values(|x: u64| x as int),
            },
        }
    }
}

impl ArrayView {
    /// The first `n` rows, or all of them where there are fewer.
    pub open spec fn take(self, n: nat) -> ArrayView {
        ArrayView {
            data_type: self.data_type,
            values: if n < self.values.len() {
                self.values.take(n as int)
            } else {
                self.values
            },
        }
    }
}

/// The first `n` items of `v`.
fn prefix<T: Copy>(v: &Vec<T>, n: usize) -> (r: Vec<T>)
    requires
        n <= v@.len(),
    ensures
        r@ == v@.take(n as int),
{
    let mut r: Vec<T> = Vec::new();
    let mut i: usize = 0;
    while i < n
        invariant
            i <= n <= v@.len(),
            r@ == v@.take(i as int),
        decreases n - i,
    {
        r.push(v[i]);
        i = i + 1;
    }
    r
}

impl DataArray {
    /// Returns the type of the values.
    pub fn data_type(&self) -> (t: DataType)
        ensures
            t == self@.data_type,
    {
        match self {
            DataArray::Int8(_) => DataType::Int8,
            DataArray::Int16(_) => DataType::Int16,
            DataArray::Int32(_) => DataType::Int32,
            DataArray::Int64(_) => DataType::Int64,
            DataArray::UInt8(_) => DataType::UInt8,
            DataArray::UInt16(_) => DataType::UInt16,
            DataArray::UInt32(_) => DataType::UInt32,
            DataArray::UInt64(_) => DataType::UInt64,
        }
    }

    /// Returns the number of rows.
    pub fn len(&self) -> (n: usize)
        ensures
            n == self@.values.len(),
    {
        match self {
            DataArray::Int8(v) => v.len(),
            DataArray::Int16(v) => v.len(),
            DataArray::Int32(v) => v.len(),
            DataArray::Int64(v) => v.len(),
            DataArray::UInt8(v) => v.len(),
            DataArray::UInt16(v) => v.len(),
            DataArray::UInt32(v) => v.len(),
            DataArray::UInt64(v) => v.len(),
        }
    }

    /// Returns the value in row `i`, or `None` where the array has no such row.
    pub fn get(&self, i: usize) -> (r: Option<DataValue>)
        ensures
            r is Some <==> i < self@.values.len(),
            r is Some ==> r->Some_0.ty() == self@.data_type && r->Some_0.as_int()
                == self@.values[i as int],
    {
        if i >= self.len() {
            return None;
        }
        Some(
            match self {
                DataArray::Int8(v) => DataValue::Int8(v[i]),
                DataArray::Int16(v) => DataValue::Int16(v[i]),
                DataArray::Int32(v) => DataValue::Int32(v[i]),
                DataArray::Int64(v) => DataValue::Int64(v[i]),
                DataArray::UInt8(v) => DataValue::UInt8(v[i]),
                DataArray::UInt16(v) => DataValue::UInt16(v[i]),
                DataArray::UInt32(v) => DataValue::UInt32(v[i]),
                DataArray::UInt64(v) => DataValue::UInt64(v[i]),
            },
        )
    }

    /// Returns the array of one row that holds `value`.
    pub fn from_value(value: DataValue) -> (r: DataArray)
        ensures
            r@.data_type == value.ty(),
            r@.values == seq![value.as_int()],
    {
        let r = match value {
            DataValue::Int8(v) => DataArray::Int8(vec![v]),
            DataValue::Int16(v) => DataArray::Int16(vec![v]),
            DataValue::Int32(v) => DataArray::Int32(vec![v]),
            DataValue::Int64(v) => DataArray::Int64(vec![v]),
            DataValue::UInt8(v) => DataArray::UInt8(vec![v]),
            DataValue::UInt16(v) => DataArray::UInt16(vec![v]),
            DataValue::UInt32(v) => DataArray::UInt32(vec![v]),
            DataValue::UInt64(v) => DataArray::UInt64(vec![v]),
        };
        assert(r@.values =~= seq![value.as_int()]);
        r
    }

    /// Returns the first `n` rows as an array of their own, or all rows
    /// where there are fewer than `n`.
    pub fn take(&self, n: usize) -> (r: DataArray)
        ensures
            r@ == self@.take(n as nat),
    {
        let len = self.len();
        let k: usize = if n < len { n } else { len };
        let r = match self {
            DataArray::Int8(v) => DataArray::Int8(prefix(v, k)),
            DataArray::Int16(v) => DataArray::Int16(prefix(v, k)),
            DataArray::Int32(v) => DataArray::Int32(prefix(v, k)),
            DataArray::Int64(v) => DataArray::Int64(prefix(v, k)),
            DataArray::UInt8(v) => DataArray::UInt8(prefix(v, k)),
            DataArray::UInt16(v) => DataArray::UInt16(prefix(v, k)),
            DataArray::UInt32(v) => DataArray::UInt32(prefix(v, k)),
            DataArray::UInt64(v) => DataArray::UInt64(prefix(v, k)),
        };
        assert(r@.values =~= self@.take(n as nat).values);
        r
    }
}

} // verus!
