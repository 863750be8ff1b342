//! A column as a record type declares it.

use vstd::prelude::*;

verus! {

/// The schema of col
#[derive(Debug)]
pub struct ColumnDef<DataType> {
    pub name: &'static str,
    maker: core::marker::PhantomData<DataType>,
}

impl<DataType> ColumnDef<DataType> {
    /// The name of the column.
    pub closed spec fn column_name(&self) -> Seq<char> {
        self.name@
    }

    pub fn new(name: &'static str) -> (def: Self)
        ensures
            def.column_name() == name@,
    {
        Self { maker: core::marker::PhantomData, name }
    }
}

} // verus!
