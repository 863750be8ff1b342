//! What a record and the thing that writes it out agree on.

use vstd::prelude::*;
use crate::error::Error;
use crate::orm::schema::{ColumnRef, TableRef};
use crate::value::{Placeholder, Value};

verus! {

/// A record type that knows the table it belongs to.
///
/// `table` is what contracts speak of; an implementation gives it the same
/// answer as `schema`.
pub trait Entity: Sized {
    /// The table of this record type.
    spec fn table() -> &'static TableRef;

    fn schema() -> (table: &'static TableRef)
        ensures
            table == Self::table(),
    ;
}

/// Takes the columns of a record, one by one.
///
/// `takes_col` and `takes_join` are what contracts speak of. Each says of a
/// serializer, of what it was handed, of an answer and of a serializer
/// afterwards whether the call can have gone that way; of a join it is told
/// how many records were handed over. An implementation that has nothing to
/// say answers `true`.
pub trait Serializer: Sized {
    /// Whether taking `value` for `col` can answer `outcome` and leave
    /// `after`.
    spec fn takes_col(
        &self,
        col: &ColumnRef,
        value: Value,
        outcome: Result<(), Error>,
        after: Self,
    ) -> bool;

    /// Whether taking `records` records for `col` can answer `outcome` and
    /// leave `after`.
    spec fn takes_join(
        &self,
        col: &ColumnRef,
        records: usize,
        outcome: Result<(), Error>,
        after: Self,
    ) -> bool;

    /// Takes a plain column.
    fn serialize_col(&mut self, col: &ColumnRef, value: Value) -> (outcome: Result<(), Error>)
        ensures
            old(self).takes_col(col, value, outcome, *final(self)),
    ;

    /// Takes a join column: the records that the column points at.
    fn serialize_join_to<Join: Entity>(
        &mut self,
        col: &ColumnRef,
        join: Vec<std::sync::Arc<Join>>,
    ) -> (outcome: Result<(), Error>)
        ensures
            old(self).takes_join(col, join.len(), outcome, *final(self)),
    ;
}

/// Hands out the columns of a row, one by one.
///
/// `gave_col` and `gave_join` are what contracts speak of. Each says of a
/// deserializer, of a column, of what was handed out and of a deserializer
/// afterwards whether the call can have gone that way; of a join it is told
/// how many records were handed out. An implementation that has nothing to
/// say answers `true`.
pub trait Deserializer: Sized {
    /// Whether asking for the value of `col` can hand out `fetched` and
    /// leave `after`.
    spec fn gave_col(
        &self,
        col: &ColumnRef,
        fetched: Result<Option<Value>, Error>,
        after: Self,
    ) -> bool;

    /// Whether asking for the records of `col` can hand out as many records
    /// as `fetched` says, or fail as it says, and leave `after`.
    spec fn gave_join(
        &self,
        col: &ColumnRef,
        fetched: Result<Option<usize>, Error>,
        after: Self,
    ) -> bool;

    /// Moves on to the column that `placeholder` names.
    fn next(&mut self, placeholder: Placeholder) -> Result<(), Error>;

    /// The value of a plain column, if the row has one for it.
    fn deserialize_col(&mut self, col: &ColumnRef) -> (fetched: Result<Option<Value>, Error>)
        ensures
            old(self).gave_col(col, fetched, *final(self)),
    ;

    /// The records that a join column points at, if the row has any for it.
    fn deserialize_join_to<Join: Entity>(&mut self, col: &ColumnRef) -> (fetched: Result<
        Option<Vec<std::sync::Arc<Join>>>,
        Error,
    >)
        ensures
            old(self).gave_join(col, join_shape(fetched), *final(self)),
    ;
}

/// How many records were handed out, if any were, or the failure.
pub open spec fn join_shape<Join>(
    fetched: Result<Option<Vec<std::sync::Arc<Join>>>, Error>,
) -> Result<Option<usize>, Error> {
    match fetched {
        Ok(Some(records)) => Ok(Some(records.len())),
        Ok(None) => Ok(None),
        Err(e) => Err(e),
    }
}

/// Something that can hand itself to a serializer as the column `col`.
pub trait Serializable {
    fn serialize<S: Serializer>(&self, col: &ColumnRef, s: &mut S) -> Result<(), Error>;
}

/// Something that can be read back from a deserializer as the column `col`.
pub trait Deserializable: Sized {
    fn dserialize<D: Deserializer>(col: &ColumnRef, d: &mut D) -> Result<Option<Self>, Error>;
}

} // verus!
