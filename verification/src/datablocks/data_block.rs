//! A block: a schema and one column array for each of its fields.

use crate::datavalues::data_array::{ArrayView, DataArray};
use crate::datavalues::data_schema::{position, DataSchema, FieldView};
use vstd::prelude::*;

verus! {

/// An immutable batch of columnar data.
///
/// A block is built once and then only read: what changes it builds a new block.
#[derive(Debug, PartialEq, Eq)]
pub struct DataBlock {
    schema: DataSchema,
    columns: Vec<DataArray>,
}

/// A [`DataBlock`] as contracts see it.
pub struct BlockView {
    pub schema: Seq<FieldView>,
    pub columns: Seq<ArrayView>,
}

impl BlockView {
    /// The number of rows: that of the first column, and none where there is no column.
    pub open spec fn rows(self) -> nat {
        if self.columns.len() == 0 {
            0
        } else {
            self.columns[0].values.len()
        }
    }

    /// What the callers of `DataBlock::create` keep to: one column for each
    /// field, of the field's type, and as many rows in one column as in another.
    pub open spec fn well_formed(self) -> bool {
        &&& self.columns.len() == self.schema.len()
        &&& forall|i: int|
            0 <= i < self.columns.len() ==> {
                &&& (#[trigger] self.columns[i]).data_type == self.schema[i].data_type
                &&& self.columns[i].values.len() == self.rows()
            }
    }

    /// The column of the first field named `name`.
    pub open spec fn column_named(self, name: Seq<char>) -> Option<ArrayView> {
        match position(self.schema, name) {
            Some(i) => if i < self.columns.len() {
                Some(self.columns[i])
            } else {
                None
            },
            None => None,
        }
    }

    /// The block of the first `n` rows, or of all rows where there are fewer.
    pub open spec fn take(self, n: nat) -> BlockView {
        BlockView {
            schema: self.schema,
            columns: self.columns.map_values(|c: ArrayView| c.take(n)),
        }
    }
}

impl View for DataBlock {
    type V = BlockView;

    closed spec fn view(&self) -> BlockView {
        BlockView { schema: self.schema@, columns: self.columns@.map_values(|c: DataArray| c@) }
    }
}

impl DataBlock {
    /// Builds the block of the given columns under the given schema.
    ///
    /// Nothing is checked: that the columns agree with the schema and with
    /// one another is for the caller to see to.
    pub fn create(schema: DataSchema, columns: Vec<DataArray>) -> (b: DataBlock)
        ensures
            b@ == (BlockView { schema: schema@, columns: columns@.map_values(|c: DataArray| c@) }),
    {
        DataBlock { schema, columns }
    }

    /// Returns the block's schema.
    pub fn schema(&self) -> (s: &DataSchema)
        ensures
            s@ == self@.schema,
    {
        &self.schema
    }

    /// Returns the number of columns.
    pub fn num_columns(&self) -> (n: usize)
        ensures
            n == self@.columns.len(),
    {
        self.columns.len()
    }

    /// Returns the number of rows.
    pub fn num_rows(&self) -> (n: usize)
        ensures
            n == self@.rows(),
    {
        if self.columns.len() == 0 {
            0
        } else {
            self.columns[0].len()
        }
    }

    /// Returns the column at `index`, or `None` where the block has no such column.
    pub fn column(&self, index: usize) -> (r: Option<&DataArray>)
        ensures
            r is Some <==> index < self@.columns.len(),
            r is Some ==> r->Some_0@ == self@.columns[index as int],
    {
        if index < self.columns.len() {
            Some(&self.columns[index])
        } else {
            None
        }
    }

    /// Returns the column of the first field named `name`, or `None` where
    /// no field has that name or the field has no column.
    pub fn column_by_name(&self, name: &str) -> (r: Option<&DataArray>)
        ensures
            match r {
                Some(c) => self@.column_named(name@) == Some(c@),
                None => self@.column_named(name@) is None,
            },
    {
        match self.schema.index_of(name) {
            Some(i) => self.column(i),
            None => None,
        }
    }

    /// Returns the block of the first `n` rows, or of all rows where there are fewer.
    pub fn take_rows(&self, n: usize) -> (b: DataBlock)
        ensures
            b@ == self@.take(n as nat),
    {
        let mut columns: Vec<DataArray> = Vec::new();
        let mut i: usize = 0;
        while i < self.columns.len()
            invariant
                i <= self.columns@.len(),
                columns@.len() == i,
                forall|j: int| 0 <= j < i ==> (#[trigger] columns@[j])@ == self.columns@[j]@.take(n as nat),
            decreases self.columns@.len() - i,
        {
            columns.push(self.columns[i].take(n));
            i = i + 1;
        }
        let b = DataBlock { schema: self.schema.clone(), columns };
        assert(b@.columns =~= self@.take(n as nat).columns);
        b
    }
}

} // verus!
