//! A serializer that collects what an insert of one record needs.

use vstd::prelude::*;
use crate::datasource::DataSource;
use crate::driver::Driver;
use crate::error::Error;
use crate::orm::schema::{names_of, ColumnRef};
use crate::orm::serde::{Entity, Serializer};
use crate::value::{args_view, Arg, Placeholder, PlaceholderView, Value, ValueView};

verus! {

/// The values of the plain columns, and how many records each join column
/// brought along.
pub struct InsertSerializer<E: Entity> {
    _marker: core::marker::PhantomData<E>,
    _values: Vec<Arg>,
    _joins: Vec<usize>,
}

impl<E: Entity> InsertSerializer<E> {
    /// The values collected so far, each named after its column.
    pub closed spec fn values(&self) -> Seq<(PlaceholderView, ValueView)> {
        args_view(self._values@)
    }

    /// The sizes of the joins collected so far.
    pub closed spec fn joins(&self) -> Seq<usize> {
        self._joins@
    }

    /// Create new insert serializer
    pub fn new() -> (serializer: Result<Self, Error>)
        ensures
            serializer matches Ok(s) && s.values() == Seq::<(PlaceholderView, ValueView)>::empty()
                && s.joins() == Seq::<usize>::empty(),
    {
        let s = InsertSerializer {
            _marker: core::marker::PhantomData,
            _values: Vec::new(),
            _joins: Vec::new(),
        };
        assert(s.values() =~= Seq::<(PlaceholderView, ValueView)>::empty());
        Ok(s)
    }

    /// Writes nothing yet: the registry is left as it is.
    pub fn save<D: Driver>(_database: &mut DataSource<D>) -> (outcome: Result<(), Error>)
        ensures
            outcome is Ok,
            *final(_database) == *old(_database),
    {
        Ok(())
    }

    /// check if target col exists
    pub fn col_exists(&self, col: &ColumnRef) -> (found: bool)
        ensures
            found == names_of(E::table().columns@).contains(col.name@),
    {
        E::schema().has_column(col.name)
    }
}

impl<E: Entity> Serializer for InsertSerializer<E> {
    /// The value is added, named after the column; that always goes well.
    open spec fn takes_col(
        &self,
        col: &ColumnRef,
        value: Value,
        outcome: Result<(), Error>,
        after: Self,
    ) -> bool {
        &&& outcome is Ok
        &&& after.joins() == self.joins()
        &&& after.values() == self.values().push((PlaceholderView::Name(col.name@), value@))
    }

    /// The number of records is noted; that always goes well.
    open spec fn takes_join(
        &self,
        col: &ColumnRef,
        records: usize,
        outcome: Result<(), Error>,
        after: Self,
    ) -> bool {
        &&& outcome is Ok
        &&& after.values() == self.values()
        &&& after.joins() == self.joins().push(records)
    }

    /// Adds the value, named after the column.
    fn serialize_col(&mut self, col: &ColumnRef, value: Value) -> (outcome: Result<(), Error>)
        ensures
            outcome is Ok,
            final(self).joins() == old(self).joins(),
            final(self).values() == old(self).values().push(
                (PlaceholderView::Name(col.name@), value@),
            ),
    {
        self._values.push(Arg { pos: Placeholder::Name(col.name.to_owned()), value });
        assert(self.values() =~= old(self).values().push(
            (PlaceholderView::Name(col.name@), value@),
        ));
        Ok(())
    }

    /// Notes how many records the join column points at.
    fn serialize_join_to<Join: Entity>(
        &mut self,
        col: &ColumnRef,
        join: Vec<std::sync::Arc<Join>>,
    ) -> (outcome: Result<(), Error>)
        ensures
            outcome is Ok,
            final(self).values() == old(self).values(),
            final(self).joins() == old(self).joins().push(join.len()),
    {
        self._joins.push(join.len());
        Ok(())
    }
}

} // verus!
