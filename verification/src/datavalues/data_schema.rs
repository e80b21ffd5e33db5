//! Fields and schemas: the names and types of a block's columns.

use crate::datavalues::data_type::DataType;
use vstd::prelude::*;
use vstd::string::StringExecFns;

verus! {

/// One column's description: its name, its type, and whether it may hold nulls.
#[derive(Debug, PartialEq, Eq)]
pub struct DataField {
    name: String,
    data_type: DataType,
    nullable: bool,
}

/// A [`DataField`] as contracts see it.
pub struct FieldView {
    pub name: Seq<char>,
    pub data_type: DataType,
    pub nullable: bool,
}

impl View for DataField {
    type V = FieldView;

    closed spec fn view(&self) -> FieldView {
        FieldView { name: self.name@, data_type: self.data_type, nullable: self.nullable }
    }
}

impl Clone for DataField {
    fn clone(&self) -> (f: DataField)
        ensures
            f@ == self@,
    {
        DataField { name: self.name.clone(), data_type: self.data_type, nullable: self.nullable }
    }
}

impl DataField {
    /// Builds the field `name` of type `data_type`.
    pub fn new(name: &str, data_type: DataType, nullable: bool) -> (f: DataField)
        ensures
            f@ == (FieldView { name: name@, data_type, nullable }),
    {
        DataField { name: String::from_str(name), data_type, nullable }
    }

    /// Returns the field's name.
    pub fn name(&self) -> (s: &str)
        ensures
            s@ == self@.name,
    {
        self.name.as_str()
    }

    /// Returns the field's type.
    pub fn data_type(&self) -> (t: DataType)
        ensures
            t == self@.data_type,
    {
        self.data_type
    }

    /// Tells whether the field's column may hold nulls.
    pub fn is_nullable(&self) -> (b: bool)
        ensures
            b == self@.nullable,
    {
        self.nullable
    }
}

/// The index of the first of `fields` that is named `name`.
pub open spec fn position(fields: Seq<FieldView>, name: Seq<char>) -> Option<int>
    decreases fields.len(),
{
    if fields.len() == 0 {
        None
    } else {
        match position(fields.drop_last(), name) {
            Some(i) => Some(i),
            None => if fields.last().name == name {
                Some(fields.len() - 1)
            } else {
                None
            },
        }
    }
}

/// `position` finds a field of the given name, the first one, exactly where there is one.
pub proof fn lemma_position(fields: Seq<FieldView>, name: Seq<char>)
    ensures
        match position(fields, name) {
            Some(i) => {
                &&& 0 <= i < fields.len()
                &&& fields[i].name == name
                &&& forall|j: int| 0 <= j < i ==> (#[trigger] fields[j]).name != name
            },
            None => forall|j: int| 0 <= j < fields.len() ==> (#[trigger] fields[j]).name != name,
        },
    decreases fields.len(),
{
    if fields.len() > 0 {
        let front = fields.drop_last();
        lemma_position(front, name);
        assert(forall|j: int| 0 <= j < front.len() ==> front[j] == fields[j]);
        match position(front, name) {
            Some(i) => {
                assert(fields[i] == front[i]);
                assert forall|j: int| 0 <= j < i implies (#[trigger] fields[j]).name != name by {
                    assert(front[j].name != name);
                }
            },
            None => {
                assert forall|j: int| 0 <= j < fields.len() - 1 implies (#[trigger] fields[j]).name
                    != name by {
                    assert(front[j].name != name);
                }
            },
        }
    }
}

/// What is found among the first `k` fields is found among all of them.
pub proof fn lemma_position_prefix(fields: Seq<FieldView>, name: Seq<char>, k: int)
    requires
        0 <= k <= fields.len(),
        position(fields.take(k), name) is Some,
    ensures
        position(fields, name) == position(fields.take(k), name),
    decreases fields.len() - k,
{
    if k < fields.len() {
        assert(fields.take(k + 1).drop_last() =~= fields.take(k));
        lemma_position_prefix(fields, name, k + 1);
    } else {
        assert(fields.take(k) =~= fields);
    }
}

/// The ordered fields of a block.
#[derive(Debug, PartialEq, Eq)]
pub struct DataSchema {
    fields: Vec<DataField>,
}

impl View for DataSchema {
    type V = Seq<FieldView>;

    closed spec fn view(&self) -> Seq<FieldView> {
        self.fields@.map_values(|f: DataField| f@)
    }
}

impl Clone for DataSchema {
    fn clone(&self) -> (s: DataSchema)
        ensures
            s@ == self@,
    {
        let mut fields: Vec<DataField> = Vec::new();
        let mut i: usize = 0;
        while i < self.fields.len()
            invariant
                i <= self.fields@.len(),
                fields@.len() == i,
                forall|j: int| 0 <= j < i ==> (#[trigger] fields@[j])@ == self.fields@[j]@,
            decreases self.fields@.len() - i,
        {
            fields.push(self.fields[i].clone());
            i = i + 1;
        }
        let s = DataSchema { fields };
        assert(s@ =~= self@);
        s
    }
}

impl DataSchema {
    /// Builds the schema of the given fields, in their order.
    pub fn new(fields: Vec<DataField>) -> (s: DataSchema)
        ensures
            s@ == fields@.map_values(|f: DataField| f@),
    {
        DataSchema { fields }
    }

    /// Builds the schema without fields.
    pub fn empty() -> (s: DataSchema)
        ensures
            s@ == Seq::<FieldView>::empty(),
    {
        let s = DataSchema { fields: Vec::new() };
        assert(s@ =~= Seq::<FieldView>::empty());
        s
    }

    /// Returns the number of fields.
    pub fn len(&self) -> (n: usize)
        ensures
            n == self@.len(),
    {
        self.fields.len()
    }

    /// Returns the field at `index`, or `None` where the schema has no such field.
    pub fn field(&self, index: usize) -> (r: Option<&DataField>)
        ensures
            r is Some <==> index < self@.len(),
            r is Some ==> r->Some_0@ == self@[index as int],
    {
        if index < self.fields.len() {
            Some(&self.fields[index])
        } else {
            None
        }
    }

    /// Returns the index of the first field named `name`, or `None` where no field has that name.
    pub fn index_of(&self, name: &str) -> (r: Option<usize>)
        ensures
            match r {
                Some(i) => {
                    &&& position(self@, name@) == Some(i as int)
                    &&& i < self@.len()
                    &&& self@[i as int].name == name@
                    &&& forall|j: int| 0 <= j < i ==> (#[trigger] self@[j]).name != name@
                },
                None => {
                    &&& position(self@, name@) is None
                    &&& forall|j: int| 0 <= j < self@.len() ==> (#[trigger] self@[j]).name != name@
                },
            },
    {
        let wanted = String::from_str(name);
        let mut i: usize = 0;
        while i < self.fields.len()
            invariant
                i <= self.fields@.len(),
                wanted@ == name@,
                position(self@.take(i as int), name@) is None,
            decreases self.fields@.len() - i,
        {
            let ghost next = self@.take(i + 1);
            assert(next.drop_last() =~= self@.take(i as int));
            assert(next.last() == self.fields@[i as int]@);
            if self.fields[i].name == wanted {
                proof {
                    lemma_position_prefix(self@, name@, i + 1);
                    lemma_position(self@, name@);
                }
                return Some(i);
            }
            i = i + 1;
        }
        proof {
            assert(self@.take(i as int) =~= self@);
            lemma_position(self@, name@);
        }
        None
    }
}

} // verus!
