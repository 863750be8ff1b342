//! The cursor a caller holds over the rows of a query.

use vstd::prelude::*;
use crate::cursor::{
    columns_memo, columns_reply, fetched_view, refusal_view, refused, Cursor,
};
use crate::driver;
use crate::error::{Error, ErrorView};
use crate::value::{
    columns_view, ColumnMetaData, ColumnMetaDataView, ColumnType, Placeholder, Value,
};

verus! {

/// A driver's cursor together with the latch and the memo kept for it.
pub struct Rows<R: driver::Rows> {
    inner: R,
    cursor: Cursor,
}

impl<R: driver::Rows> Rows<R> {
    /// The driver's cursor.
    pub closed spec fn inner(&self) -> R {
        self.inner
    }

    /// Whether the last step found a row.
    pub closed spec fn positioned(&self) -> bool {
        self.cursor.positioned()
    }

    /// The column descriptions, once they were fetched.
    pub closed spec fn known_columns(&self) -> Option<Seq<ColumnMetaDataView>> {
        self.cursor.known_columns()
    }

    /// Wraps a driver's cursor that has not been stepped yet.
    pub fn new(inner: R) -> (rows: Self)
        ensures
            rows.inner() == inner,
            !rows.positioned(),
            rows.known_columns() is None,
    {
        Rows { inner, cursor: Cursor::new() }
    }

    /// Whether the last step found a row.
    pub fn has_next(&self) -> (positioned: bool)
        ensures
            positioned == self.positioned(),
    {
        self.cursor.has_next()
    }

    /// Describes the columns. While they are not known the driver's cursor
    /// is asked, and what it answers is handed out and, if it is columns,
    /// kept. Once they are known they are handed out again and the driver's
    /// cursor is left alone.
    pub fn colunms(&mut self) -> (columns: Result<Vec<ColumnMetaData>, Error>)
        ensures
            final(self).positioned() == old(self).positioned(),
            match old(self).known_columns() {
                Some(known) => {
                    &&& final(self).inner() == old(self).inner()
                    &&& fetched_view(columns) == columns_reply(old(self).known_columns(), Ok(known))
                    &&& final(self).known_columns() == columns_memo(
                        old(self).known_columns(),
                        Ok(known),
                    )
                },
                None => exists|fetched: Result<Vec<ColumnMetaData>, Error>|
                    {
                        &&& #[trigger] old(self).inner().describes(fetched, final(self).inner())
                        &&& fetched_view(columns) == columns_reply(None, fetched_view(fetched))
                        &&& final(self).known_columns() == columns_memo(
                            None,
                            fetched_view(fetched),
                        )
                    },
            },
    {
        match self.cached() {
            Some(known) => Ok(known),
            None => {
                let fetched = self.inner.colunms();
                let ghost witness = fetched;
                let columns = self.remember(fetched);
                proof {
                    assert(old(self).inner().describes(witness, self.inner()));
                    assert(fetched_view(columns) == columns_reply(None, fetched_view(witness)));
                    assert(self.known_columns() == columns_memo(None, fetched_view(witness)));
                }
                columns
            },
        }
    }

    /// Steps to the next row: the driver's cursor is asked to step, and its
    /// answer is handed out. `Ok(true)` leaves the cursor on a row; the end
    /// of the set and an error both leave it on none.
    pub fn next(&mut self) -> (stepped: Result<bool, Error>)
        ensures
            old(self).inner().steps(stepped, final(self).inner()),
            final(self).positioned() == (stepped == Ok::<bool, Error>(true)),
            final(self).known_columns() == old(self).known_columns(),
    {
        let stepped = self.inner.next();
        self.latch(stepped)
    }

    /// Reads one column of the current row as the kind asked for.
    ///
    /// Fails with `CursorNotPositioned` when the cursor stands on no row, and
    /// with `OutOfRange` when the columns are known and the index is not
    /// below their number; in both cases the driver is not asked. In every
    /// other case the driver's cursor is asked for that column as that kind,
    /// and its answer is handed out.
    pub fn get(&mut self, pos: Placeholder, column_type: ColumnType) -> (value: Result<
        Value,
        Error,
    >)
        ensures
            final(self).positioned() == old(self).positioned(),
            final(self).known_columns() == old(self).known_columns(),
            match refused(old(self).positioned(), old(self).known_columns(), pos@) {
                Some(refusal) => {
                    &&& value matches Err(e) && e@ == refusal
                    &&& final(self).inner() == old(self).inner()
                },
                None => old(self).inner().gets(pos, column_type, value, final(self).inner()),
            },
    {
        match self.refuse(&pos) {
            Some(refusal) => Err(refusal),
            None => self.inner.get(pos, column_type),
        }
    }

    /// Wraps what a driver's statement answered to a query: its cursor, not
    /// stepped yet, or its error as it is.
    pub fn wrap(queried: Result<R, Error>) -> (outcome: Result<Self, Error>)
        ensures
            match queried {
                Ok(rows) => outcome matches Ok(wrapped) && wrapped.inner() == rows
                    && !wrapped.positioned() && wrapped.known_columns() is None,
                Err(e) => outcome matches Err(passed) && passed == e,
            },
    {
        match queried {
            Ok(rows) => Ok(Rows::new(rows)),
            Err(e) => Err(e),
        }
    }

    /// The driver's cursor, to ask it something. The latch and the memo
    /// stay as they are.
    pub fn inner_mut(&mut self) -> (inner: &mut R)
        ensures
            *inner == old(self).inner(),
            final(self).inner() == *final(inner),
            final(self).positioned() == old(self).positioned(),
            final(self).known_columns() == old(self).known_columns(),
    {
        &mut self.inner
    }

    /// A copy of the column descriptions, once they are known.
    pub fn cached(&self) -> (columns: Option<Vec<ColumnMetaData>>)
        ensures
            match columns {
                Some(c) => self.known_columns() == Some(columns_view(c@)),
                None => self.known_columns() is None,
            },
    {
        self.cursor.cached()
    }

    /// Takes in what the driver's cursor answered when it was asked for the
    /// columns: columns are kept and a copy is handed out; a failure is
    /// handed on and nothing is kept.
    pub fn remember(&mut self, fetched: Result<Vec<ColumnMetaData>, Error>) -> (outcome: Result<
        Vec<ColumnMetaData>,
        Error,
    >)
        ensures
            fetched_view(outcome) == fetched_view(fetched),
            final(self).inner() == old(self).inner(),
            final(self).positioned() == old(self).positioned(),
            final(self).known_columns() == match fetched {
                Ok(columns) => Some(columns_view(columns@)),
                Err(_) => old(self).known_columns(),
            },
    {
        self.cursor.remember(fetched)
    }

    /// Takes in what the driver's cursor answered to a step and hands it
    /// on. Only a step that found a row leaves the cursor on one.
    pub fn latch(&mut self, stepped: Result<bool, Error>) -> (outcome: Result<bool, Error>)
        ensures
            outcome == stepped,
            final(self).inner() == old(self).inner(),
            final(self).positioned() == (stepped == Ok::<bool, Error>(true)),
            final(self).known_columns() == old(self).known_columns(),
    {
        self.cursor.latch(stepped)
    }

    /// Decides whether a read at `pos` is refused before the driver's
    /// cursor is asked.
    pub fn refuse(&self, pos: &Placeholder) -> (refusal: Option<Error>)
        ensures
            refusal_view(refusal) == refused(self.positioned(), self.known_columns(), pos@),
    {
        self.cursor.refuse(pos)
    }
}

} // verus!
