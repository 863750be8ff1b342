//! A serializer that collects the columns of a record as named arguments.

use vstd::prelude::*;
use crate::error::Error;
use crate::orm::schema::ColumnRef;
use crate::orm::serde::{Entity, Serializer};
use crate::value::{args_view, Arg, Placeholder, PlaceholderView, Value, ValueView};

verus! {

/// The arguments collected so far, in the order the columns came.
pub struct RdbcSerializer {
    cols: Vec<Arg>,
}

impl RdbcSerializer {
    /// The arguments collected so far.
    pub closed spec fn args(&self) -> Seq<(PlaceholderView, ValueView)> {
        args_view(self.cols@)
    }

    pub fn new() -> (serializer: Self)
        ensures
            serializer.args() == Seq::<(PlaceholderView, ValueView)>::empty(),
    {
        let serializer = RdbcSerializer { cols: Vec::new() };
        assert(serializer.args() =~= Seq::<(PlaceholderView, ValueView)>::empty());
        serializer
    }

    /// Hands the collected arguments out.
    pub fn into_args(self) -> (args: Vec<Arg>)
        ensures
            args_view(args@) == self.args(),
    {
        self.cols
    }
}

impl Serializer for RdbcSerializer {
    /// The value is added as an argument named after the column; that
    /// always goes well.
    open spec fn takes_col(
        &self,
        col: &ColumnRef,
        value: Value,
        outcome: Result<(), Error>,
        after: Self,
    ) -> bool {
        &&& outcome is Ok
        &&& after.args() == self.args().push((PlaceholderView::Name(col.name@), value@))
    }

    /// A join adds no argument; that always goes well.
    open spec fn takes_join(
        &self,
        col: &ColumnRef,
        records: usize,
        outcome: Result<(), Error>,
        after: Self,
    ) -> bool {
        &&& outcome is Ok
        &&& after.args() == self.args()
    }

    /// Adds the value as an argument named after the column.
    fn serialize_col(&mut self, col: &ColumnRef, value: Value) -> (outcome: Result<(), Error>)
        ensures
            outcome is Ok,
            final(self).args() == old(self).args().push((PlaceholderView::Name(col.name@), value@)),
    {
        self.cols.push(Arg { pos: Placeholder::Name(col.name.to_owned()), value });
        assert(self.args() =~= old(self).args().push((PlaceholderView::Name(col.name@), value@)));
        Ok(())
    }

    /// Joins add no argument.
    fn serialize_join_to<Join: Entity>(
        &mut self,
        col: &ColumnRef,
        join: Vec<std::sync::Arc<Join>>,
    ) -> (outcome: Result<(), Error>)
        ensures
            outcome is Ok,
            final(self).args() == old(self).args(),
    {
        Ok(())
    }
}

} // verus!
