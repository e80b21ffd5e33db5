use fuse_query::datablocks::DataBlock;
use fuse_query::datastreams::{DataBlockStream, MemoryStream};
use fuse_query::datavalues::{DataArray, DataField, DataSchema, DataType};
use fuse_query::error::Error;

fn block(values: Vec<i32>) -> DataBlock {
    DataBlock::create(
        DataSchema::new(vec![DataField::new("n", DataType::Int32, false)]),
        vec![DataArray::Int32(values)],
    )
}

fn replayed(limit: Option<usize>, parts: Vec<Vec<i32>>) -> Vec<Vec<i32>> {
    let blocks = parts.into_iter().map(block).collect();
    let mut stream = MemoryStream::create(DataSchema::empty(), limit, blocks).into_stream();
    let mut seen = Vec::new();
    while let Some(item) = stream.next() {
        let b = item.unwrap();
        assert_eq!(b.schema().field(0).unwrap().name(), "n");
        match b.column(0).unwrap() {
            DataArray::Int32(values) => seen.push(values.clone()),
            other => panic!("a column of another type came out: {:?}", other),
        }
    }
    seen
}

#[test]
fn a_stream_yields_in_order_and_once() {
    let mut s = DataBlockStream::empty();
    assert_eq!(s.len(), 0);
    s.push(Ok(block(vec![1])));
    s.push(Err(Error::Internal("gone".to_string())));
    s.push(Ok(block(vec![2, 3])));
    assert_eq!(s.len(), 3);
    assert_eq!(s.next(), Some(Ok(block(vec![1]))));
    assert_eq!(s.len(), 2);
    assert_eq!(s.next(), Some(Err(Error::Internal("gone".to_string()))));
    assert_eq!(s.next(), Some(Ok(block(vec![2, 3]))));
    assert_eq!(s.next(), None);
    assert_eq!(s.next(), None);
    assert_eq!(s.len(), 0);
}

#[test]
fn a_memory_stream_replays_its_blocks() {
    let parts = vec![vec![1, 2], vec![], vec![3]];
    assert_eq!(replayed(None, parts.clone()), parts);
    assert_eq!(replayed(None, vec![]), Vec::<Vec<i32>>::new());
}

#[test]
fn a_memory_stream_keeps_its_schema() {
    let schema = DataSchema::new(vec![DataField::new("n", DataType::Int32, false)]);
    let s = MemoryStream::create(schema.clone(), Some(3), vec![block(vec![1])]);
    assert_eq!(s.schema(), &schema);
}

#[test]
fn a_limit_cuts_the_block_it_falls_in() {
    let parts = vec![vec![1, 2], vec![3, 4, 5], vec![6]];
    assert_eq!(replayed(Some(3), parts.clone()), vec![vec![1, 2], vec![3]]);
    assert_eq!(replayed(Some(1), parts.clone()), vec![vec![1]]);
    assert_eq!(replayed(Some(4), parts.clone()), vec![vec![1, 2], vec![3, 4]]);
}

#[test]
fn a_limit_at_a_block_end_keeps_whole_blocks() {
    let parts = vec![vec![1, 2], vec![3, 4, 5], vec![6]];
    assert_eq!(replayed(Some(2), parts.clone()), vec![vec![1, 2]]);
    assert_eq!(replayed(Some(5), parts.clone()), vec![vec![1, 2], vec![3, 4, 5]]);
}

#[test]
fn a_limit_beyond_the_rows_keeps_everything() {
    let parts = vec![vec![1, 2], vec![3, 4, 5], vec![6]];
    assert_eq!(replayed(Some(6), parts.clone()), parts);
    assert_eq!(replayed(Some(usize::MAX), parts.clone()), parts);
}

#[test]
fn a_limit_of_zero_yields_nothing() {
    assert_eq!(replayed(Some(0), vec![vec![1, 2], vec![3]]), Vec::<Vec<i32>>::new());
    assert_eq!(replayed(Some(0), vec![vec![], vec![3]]), Vec::<Vec<i32>>::new());
}

#[test]
fn blocks_without_rows_pass_until_the_limit_is_used_up() {
    let parts = vec![vec![], vec![1, 2], vec![], vec![3]];
    assert_eq!(replayed(Some(3), parts.clone()), parts);
    assert_eq!(replayed(Some(2), parts.clone()), vec![vec![], vec![1, 2]]);
    assert_eq!(replayed(Some(5), parts.clone()), parts);
}
