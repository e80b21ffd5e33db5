use std::sync::Arc;

use fuse_query::datablocks::DataBlock;
use fuse_query::datavalues::{DataArray, DataField, DataSchema, DataType, DataValue};
use fuse_query::error::Error;
use fuse_query::functions::{AggregateFunction, AggregateFunctionFactory, AggregateKind, Function};

fn block(name: &str, column: DataArray) -> DataBlock {
    let data_type = column.data_type();
    DataBlock::create(
        DataSchema::new(vec![DataField::new(name, data_type, false)]),
        vec![column],
    )
}

fn get(name: &str, data_type: DataType) -> AggregateFunction {
    AggregateFunctionFactory::get(name, Arc::new(Function::column("x")), &data_type).unwrap()
}

#[test]
fn kind_names_parse_in_any_case() {
    assert_eq!(AggregateKind::parse("count"), Some(AggregateKind::Count));
    assert_eq!(AggregateKind::parse("CoUnT"), Some(AggregateKind::Count));
    assert_eq!(AggregateKind::parse("MIN"), Some(AggregateKind::Min));
    assert_eq!(AggregateKind::parse("Max"), Some(AggregateKind::Max));
    assert_eq!(AggregateKind::parse("suM"), Some(AggregateKind::Sum));
}

#[test]
fn other_names_parse_to_nothing() {
    for name in ["", "c", "coun", "counter", "mix", "summ", "min max", "s\u{fc}m", "\u{212a}", "MA\u{58}\u{301}"] {
        assert_eq!(AggregateKind::parse(name), None);
    }
}

#[test]
fn kind_names_are_small_letters() {
    assert_eq!(AggregateKind::Count.as_str(), "count");
    assert_eq!(AggregateKind::Min.as_str(), "min");
    assert_eq!(AggregateKind::Max.as_str(), "max");
    assert_eq!(AggregateKind::Sum.as_str(), "sum");
    for kind in [AggregateKind::Count, AggregateKind::Min, AggregateKind::Max, AggregateKind::Sum] {
        assert_eq!(AggregateKind::parse(kind.as_str()), Some(kind));
    }
}

#[test]
fn factory_refuses_unknown_names() {
    let r = AggregateFunctionFactory::get("median", Arc::new(Function::column("x")), &DataType::Int8);
    assert_eq!(r.err(), Some(Error::Unsupported("median".to_string())));
}

#[test]
fn factory_builds_fresh_functions() {
    assert_eq!(get("COUNT", DataType::Int8).aggregate(), Ok(DataValue::UInt64(0)));
    assert_eq!(get("Sum", DataType::Int8).aggregate(), Ok(DataValue::Int8(0)));
    assert_eq!(get("sum", DataType::UInt32).aggregate(), Ok(DataValue::UInt32(0)));
    assert_eq!(get("min", DataType::Int8).aggregate(), Err(Error::EmptyAggregate));
    assert_eq!(get("MAX", DataType::Int8).aggregate(), Err(Error::EmptyAggregate));
}

#[test]
fn return_types() {
    let schema = DataSchema::empty();
    assert_eq!(get("count", DataType::Int16).return_type(&schema), Ok(DataType::UInt64));
    assert_eq!(get("min", DataType::Int16).return_type(&schema), Ok(DataType::Int16));
    assert_eq!(get("max", DataType::UInt8).return_type(&schema), Ok(DataType::UInt8));
    assert_eq!(get("sum", DataType::UInt64).return_type(&schema), Ok(DataType::UInt64));
    let other = DataSchema::new(vec![DataField::new("x", DataType::Int8, true)]);
    assert_eq!(get("sum", DataType::UInt64).return_type(&other), Ok(DataType::UInt64));
}

#[test]
fn count_counts_rows_of_any_type() {
    let mut f = get("count", DataType::UInt64);
    f.accumulate(&block("x", DataArray::Int8(vec![-1, -2, -3]))).unwrap();
    f.accumulate(&block("x", DataArray::UInt32(vec![7]))).unwrap();
    f.accumulate(&block("x", DataArray::Int64(vec![]))).unwrap();
    assert_eq!(f.aggregate(), Ok(DataValue::UInt64(4)));
}

#[test]
fn sum_adds_in_every_type() {
    let mut f = get("sum", DataType::Int8);
    f.accumulate(&block("x", DataArray::Int8(vec![100, -100, 27]))).unwrap();
    f.accumulate(&block("x", DataArray::Int8(vec![100]))).unwrap();
    assert_eq!(f.aggregate(), Ok(DataValue::Int8(127)));

    let mut f = get("sum", DataType::Int16);
    f.accumulate(&block("x", DataArray::Int16(vec![-30000, -2768]))).unwrap();
    assert_eq!(f.aggregate(), Ok(DataValue::Int16(i16::MIN)));

    let mut f = get("sum", DataType::Int32);
    f.accumulate(&block("x", DataArray::Int32(vec![1 << 30, (1 << 30) - 1]))).unwrap();
    assert_eq!(f.aggregate(), Ok(DataValue::Int32(i32::MAX)));

    let mut f = get("sum", DataType::UInt8);
    f.accumulate(&block("x", DataArray::UInt8(vec![200, 55]))).unwrap();
    assert_eq!(f.aggregate(), Ok(DataValue::UInt8(255)));

    let mut f = get("sum", DataType::UInt16);
    f.accumulate(&block("x", DataArray::UInt16(vec![65535]))).unwrap();
    assert_eq!(f.aggregate(), Ok(DataValue::UInt16(65535)));

    let mut f = get("sum", DataType::UInt32);
    f.accumulate(&block("x", DataArray::UInt32(vec![4_000_000_000, 294_967_295]))).unwrap();
    assert_eq!(f.aggregate(), Ok(DataValue::UInt32(u32::MAX)));

    let mut f = get("sum", DataType::UInt64);
    f.accumulate(&block("x", DataArray::UInt64(vec![u64::MAX - 1, 1]))).unwrap();
    assert_eq!(f.aggregate(), Ok(DataValue::UInt64(u64::MAX)));
}

#[test]
fn sum_overflows_exactly_where_the_total_leaves_the_type() {
    let mut f = get("sum", DataType::Int8);
    assert_eq!(f.accumulate(&block("x", DataArray::Int8(vec![100, 28]))), Ok(()));
    assert_eq!(f.aggregate(), Err(Error::Overflow));

    let mut f = get("sum", DataType::Int8);
    f.accumulate(&block("x", DataArray::Int8(vec![-100, -29]))).unwrap();
    assert_eq!(f.aggregate(), Err(Error::Overflow));

    let mut f = get("sum", DataType::UInt8);
    f.accumulate(&block("x", DataArray::UInt8(vec![255]))).unwrap();
    assert_eq!(f.aggregate(), Ok(DataValue::UInt8(255)));
    f.accumulate(&block("x", DataArray::UInt8(vec![0, 1]))).unwrap();
    assert_eq!(f.aggregate(), Err(Error::Overflow));

    let mut f = get("sum", DataType::UInt64);
    f.accumulate(&block("x", DataArray::UInt64(vec![u64::MAX, 1]))).unwrap();
    assert_eq!(f.aggregate(), Err(Error::Overflow));

    let mut f = get("sum", DataType::Int64);
    f.accumulate(&block("x", DataArray::Int64(vec![i64::MIN, -1]))).unwrap();
    assert_eq!(f.aggregate(), Err(Error::Overflow));
}

#[test]
fn a_sum_that_comes_back_into_its_type_is_the_sum() {
    let mut f = get("sum", DataType::Int8);
    f.accumulate(&block("x", DataArray::Int8(vec![100, 100, -100]))).unwrap();
    assert_eq!(f.aggregate(), Ok(DataValue::Int8(100)));

    let mut f = get("sum", DataType::Int8);
    f.accumulate(&block("x", DataArray::Int8(vec![100, 28]))).unwrap();
    assert_eq!(f.aggregate(), Err(Error::Overflow));
    f.accumulate(&block("x", DataArray::Int8(vec![-1]))).unwrap();
    assert_eq!(f.aggregate(), Ok(DataValue::Int8(127)));

    let mut f = get("sum", DataType::Int8);
    f.accumulate(&block("x", DataArray::Int8(vec![-128, -128, 127, 1]))).unwrap();
    assert_eq!(f.aggregate(), Ok(DataValue::Int8(-128)));

    let mut f = get("sum", DataType::Int64);
    f.accumulate(&block("x", DataArray::Int64(vec![i64::MAX, 1, -1]))).unwrap();
    assert_eq!(f.aggregate(), Ok(DataValue::Int64(i64::MAX)));

    let mut f = get("sum", DataType::Int64);
    f.accumulate(&block("x", DataArray::Int64(vec![i64::MIN, i64::MIN, i64::MAX]))).unwrap();
    assert_eq!(f.aggregate(), Err(Error::Overflow));
    f.accumulate(&block("x", DataArray::Int64(vec![i64::MAX, 2]))).unwrap();
    assert_eq!(f.aggregate(), Ok(DataValue::Int64(0)));

    let mut f = get("sum", DataType::Int64);
    f.accumulate(&block("x", DataArray::Int64(vec![i64::MAX; 5]))).unwrap();
    f.accumulate(&block("x", DataArray::Int64(vec![i64::MIN; 4]))).unwrap();
    assert_eq!(f.aggregate(), Ok(DataValue::Int64(i64::MAX - 4)));
}

#[test]
fn the_order_of_the_values_does_not_matter() {
    let orders: [[i8; 4]; 6] = [
        [100, 100, -100, -50],
        [100, -100, 100, -50],
        [-100, -50, 100, 100],
        [-50, 100, 100, -100],
        [100, -50, -100, 100],
        [-100, 100, -50, 100],
    ];
    for order in orders {
        let mut sum = get("sum", DataType::Int8);
        let mut count = get("count", DataType::Int8);
        let mut lo = get("min", DataType::Int8);
        let mut hi = get("max", DataType::Int8);
        for f in [&mut sum, &mut count, &mut lo, &mut hi] {
            f.accumulate(&block("x", DataArray::Int8(order[..1].to_vec()))).unwrap();
            f.accumulate(&block("x", DataArray::Int8(order[1..].to_vec()))).unwrap();
        }
        assert_eq!(sum.aggregate(), Ok(DataValue::Int8(50)));
        assert_eq!(count.aggregate(), Ok(DataValue::UInt64(4)));
        assert_eq!(lo.aggregate(), Ok(DataValue::Int8(-100)));
        assert_eq!(hi.aggregate(), Ok(DataValue::Int8(100)));
    }
}

#[test]
fn a_sum_of_unsigned_values_beyond_the_signed_range() {
    let mut f = get("sum", DataType::UInt64);
    f.accumulate(&block("x", DataArray::UInt64(vec![u64::MAX; 3]))).unwrap();
    assert_eq!(f.aggregate(), Err(Error::Overflow));
    let mut f = get("sum", DataType::UInt64);
    f.accumulate(&block("x", DataArray::UInt64(vec![1 << 63, (1 << 63) - 1]))).unwrap();
    assert_eq!(f.aggregate(), Ok(DataValue::UInt64(u64::MAX)));
}

#[test]
fn min_and_max_across_blocks() {
    let mut lo = get("min", DataType::Int32);
    let mut hi = get("max", DataType::Int32);
    for values in [vec![5, 3, 8], vec![], vec![-2, 11], vec![0]] {
        lo.accumulate(&block("x", DataArray::Int32(values.clone()))).unwrap();
        hi.accumulate(&block("x", DataArray::Int32(values))).unwrap();
    }
    assert_eq!(lo.aggregate(), Ok(DataValue::Int32(-2)));
    assert_eq!(hi.aggregate(), Ok(DataValue::Int32(11)));
}

#[test]
fn min_and_max_at_the_ends_of_a_type() {
    let mut lo = get("min", DataType::UInt64);
    let mut hi = get("max", DataType::UInt64);
    lo.accumulate(&block("x", DataArray::UInt64(vec![u64::MAX, 0, 5]))).unwrap();
    hi.accumulate(&block("x", DataArray::UInt64(vec![0, u64::MAX, 5]))).unwrap();
    assert_eq!(lo.aggregate(), Ok(DataValue::UInt64(0)));
    assert_eq!(hi.aggregate(), Ok(DataValue::UInt64(u64::MAX)));

    let mut lo = get("min", DataType::Int64);
    let mut hi = get("max", DataType::Int64);
    lo.accumulate(&block("x", DataArray::Int64(vec![i64::MAX, i64::MIN]))).unwrap();
    hi.accumulate(&block("x", DataArray::Int64(vec![i64::MIN, i64::MAX]))).unwrap();
    assert_eq!(lo.aggregate(), Ok(DataValue::Int64(i64::MIN)));
    assert_eq!(hi.aggregate(), Ok(DataValue::Int64(i64::MAX)));
}

#[test]
fn min_of_blocks_without_rows_stays_unset() {
    let mut f = get("min", DataType::Int32);
    f.accumulate(&block("x", DataArray::Int32(vec![]))).unwrap();
    assert_eq!(f.aggregate(), Err(Error::EmptyAggregate));
}

#[test]
fn a_mismatch_leaves_the_state_as_it_was() {
    let mut f = get("max", DataType::Int32);
    f.accumulate(&block("x", DataArray::Int32(vec![4]))).unwrap();
    assert_eq!(
        f.accumulate(&block("x", DataArray::Int64(vec![9]))),
        Err(Error::TypeMismatch { expected: DataType::Int32, actual: DataType::Int64 })
    );
    assert_eq!(f.aggregate(), Ok(DataValue::Int32(4)));
}

#[test]
fn an_unknown_column_leaves_the_state_as_it_was() {
    let mut f = get("count", DataType::Int32);
    f.accumulate(&block("x", DataArray::Int32(vec![4]))).unwrap();
    assert_eq!(
        f.accumulate(&block("y", DataArray::Int32(vec![9]))),
        Err(Error::UnknownColumn("x".to_string()))
    );
    assert_eq!(f.aggregate(), Ok(DataValue::UInt64(1)));
}

#[test]
fn the_column_is_found_by_name_among_others() {
    let b = DataBlock::create(
        DataSchema::new(vec![
            DataField::new("w", DataType::Int8, false),
            DataField::new("x", DataType::Int16, false),
            DataField::new("x", DataType::Int32, false),
        ]),
        vec![
            DataArray::Int8(vec![1, 1]),
            DataArray::Int16(vec![20, 30]),
            DataArray::Int32(vec![400, 500]),
        ],
    );
    let mut f = get("sum", DataType::Int16);
    f.accumulate(&b).unwrap();
    assert_eq!(f.aggregate(), Ok(DataValue::Int16(50)));
}

#[test]
fn a_field_without_a_column_is_unknown() {
    let b = DataBlock::create(
        DataSchema::new(vec![
            DataField::new("w", DataType::Int8, false),
            DataField::new("x", DataType::Int16, false),
        ]),
        vec![DataArray::Int8(vec![1, 1])],
    );
    let mut f = get("count", DataType::Int16);
    assert_eq!(f.accumulate(&b), Err(Error::UnknownColumn("x".to_string())));
}

#[test]
fn column_reference_keeps_its_name() {
    assert_eq!(Function::column("price").name(), "price");
}
