//! The state of a cursor: whether it stands on a row, and what it has
//! learned about its columns.

use vstd::prelude::*;
use crate::error::{Error, ErrorView};
use crate::text::same_text;
use crate::value::{
    columns_view, duplicate_columns, ColumnMetaData, ColumnMetaDataView, Placeholder,
    PlaceholderView,
};

verus! {

/// The latch and the memo of a cursor.
///
/// `has_next` is set by a step that found a row and cleared by any other
/// step. The column descriptions are fetched once and kept.
pub struct Cursor {
    has_next: bool,
    columns: Option<Vec<ColumnMetaData>>,
}

/// The names of a row of column descriptions, in order.
pub open spec fn column_names(columns: Seq<ColumnMetaDataView>) -> Seq<Seq<char>> {
    columns.map_values(|c: ColumnMetaDataView| c.column_name)
}

/// The position of the first column called `name`, or the number of columns
/// when there is none.
pub open spec fn named_column(columns: Seq<ColumnMetaDataView>, name: Seq<char>) -> int {
    crate::table::position_of(column_names(columns), name)
}

/// Which column of the current row a placeholder points at.
///
/// A cursor that does not stand on a row answers `CursorNotPositioned`
/// whatever the placeholder is. An index must be below the number of
/// columns; a name must be the name of a column, and points at the first
/// column of that name.
pub open spec fn located(
    has_next: bool,
    columns: Seq<ColumnMetaDataView>,
    pos: PlaceholderView,
) -> Result<u64, ErrorView> {
    if !has_next {
        Err(ErrorView::CursorNotPositioned)
    } else {
        match pos {
            PlaceholderView::Index(index) => if index < columns.len() {
                Ok(index)
            } else {
                Err(ErrorView::OutOfRange(index))
            },
            PlaceholderView::Name(name) => if named_column(columns, name) < columns.len() {
                Ok(named_column(columns, name) as u64)
            } else {
                Err(ErrorView::UnknownColumn(name))
            },
        }
    }
}

/// What a cursor can refuse before the driver is asked: to read when it
/// stands on no row, and an index at or past the number of columns it
/// already knows of.
pub open spec fn refused(
    has_next: bool,
    known: Option<Seq<ColumnMetaDataView>>,
    pos: PlaceholderView,
) -> Option<ErrorView> {
    if !has_next {
        Some(ErrorView::CursorNotPositioned)
    } else {
        match (known, pos) {
            (Some(columns), PlaceholderView::Index(index)) => if index >= columns.len() {
                Some(ErrorView::OutOfRange(index))
            } else {
                None
            },
            _ => None,
        }
    }
}

/// The value of an optional error.
pub open spec fn refusal_view(r: Option<Error>) -> Option<ErrorView> {
    match r {
        Some(e) => Some(e@),
        None => None,
    }
}

/// The value of a checked position: the column, or the error's value.
pub open spec fn position_view(r: Result<u64, Error>) -> Result<u64, ErrorView> {
    match r {
        Ok(index) => Ok(index),
        Err(e) => Err(e@),
    }
}

/// The value of a fetched column list: the descriptions, or the error's value.
pub open spec fn fetched_view(r: Result<Vec<ColumnMetaData>, Error>) -> Result<
    Seq<ColumnMetaDataView>,
    ErrorView,
> {
    match r {
        Ok(columns) => Ok(columns_view(columns@)),
        Err(e) => Err(e@),
    }
}

/// What a request for the columns answers: what is known already, or else
/// what the fetch gave.
pub open spec fn columns_reply(
    known: Option<Seq<ColumnMetaDataView>>,
    fetched: Result<Seq<ColumnMetaDataView>, ErrorView>,
) -> Result<Seq<ColumnMetaDataView>, ErrorView> {
    match known {
        Some(columns) => Ok(columns),
        None => fetched,
    }
}

/// What is known of the columns after a request for them.
pub open spec fn columns_memo(
    known: Option<Seq<ColumnMetaDataView>>,
    fetched: Result<Seq<ColumnMetaDataView>, ErrorView>,
) -> Option<Seq<ColumnMetaDataView>> {
    match known {
        Some(columns) => Some(columns),
        None => match fetched {
            Ok(columns) => Some(columns),
            Err(_) => None,
        },
    }
}

/// Once a request for the columns was answered with columns, every later
/// request is answered with the same columns, whatever a fetch would give
/// by then.
pub proof fn lemma_columns_stay(
    known: Option<Seq<ColumnMetaDataView>>,
    first: Result<Seq<ColumnMetaDataView>, ErrorView>,
    later: Result<Seq<ColumnMetaDataView>, ErrorView>,
)
    requires
        columns_reply(known, first) is Ok,
    ensures
        columns_reply(columns_memo(known, first), later) == columns_reply(known, first),
        columns_memo(columns_memo(known, first), later) == columns_memo(known, first),
{
}

/// A cursor that stands on no row refuses every read with
/// `CursorNotPositioned`, whatever it knows of its columns and whichever
/// column is asked for.
pub proof fn lemma_unpositioned_refuses(
    known: Option<Seq<ColumnMetaDataView>>,
    columns: Seq<ColumnMetaDataView>,
    pos: PlaceholderView,
)
    ensures
        refused(false, known, pos) == Some(ErrorView::CursorNotPositioned),
        located(false, columns, pos) == Err::<u64, ErrorView>(ErrorView::CursorNotPositioned),
{
}

impl Cursor {
    /// Whether the cursor stands on a row.
    pub closed spec fn positioned(&self) -> bool {
        self.has_next
    }

    /// The column descriptions, once they are known.
    pub closed spec fn known_columns(&self) -> Option<Seq<ColumnMetaDataView>> {
        match self.columns {
            Some(columns) => Some(columns_view(columns@)),
            None => None,
        }
    }

    /// A cursor before its first step: on no row, columns unknown.
    pub fn new() -> (cursor: Cursor)
        ensures
            !cursor.positioned(),
            cursor.known_columns() is None,
    {
        Cursor { has_next: false, columns: None }
    }

    /// Whether the cursor stands on a row.
    pub fn has_next(&self) -> (positioned: bool)
        ensures
            positioned == self.positioned(),
    {
        self.has_next
    }

    /// A copy of the column descriptions, once they are known.
    pub fn cached(&self) -> (columns: Option<Vec<ColumnMetaData>>)
        ensures
            match columns {
                Some(c) => self.known_columns() == Some(columns_view(c@)),
                None => self.known_columns() is None,
            },
    {
        match &self.columns {
            Some(columns) => Some(duplicate_columns(columns)),
            None => None,
        }
    }

    /// Records how a step ended and passes the outcome on. Only a step that
    /// found a row leaves the cursor positioned.
    pub fn latch(&mut self, stepped: Result<bool, Error>) -> (outcome: Result<bool, Error>)
        ensures
            outcome == stepped,
            final(self).positioned() == (stepped == Ok::<bool, Error>(true)),
            final(self).known_columns() == old(self).known_columns(),
    {
        self.has_next = match &stepped {
            Ok(found) => *found,
            Err(_) => false,
        };
        stepped
    }

    /// Keeps the column descriptions that were fetched and hands out a copy.
    /// A failed fetch is passed on and leaves the cursor as it was.
    pub fn remember(&mut self, fetched: Result<Vec<ColumnMetaData>, Error>) -> (outcome: Result<
        Vec<ColumnMetaData>,
        Error,
    >)
        ensures
            fetched_view(outcome) == fetched_view(fetched),
            final(self).positioned() == old(self).positioned(),
            final(self).known_columns() == match fetched {
                Ok(columns) => Some(columns_view(columns@)),
                Err(_) => old(self).known_columns(),
            },
    {
        match fetched {
            Ok(columns) => {
                let copy = duplicate_columns(&columns);
                self.columns = Some(columns);
                Ok(copy)
            },
            Err(e) => Err(e),
        }
    }

    /// Decides whether a read at `pos` can be refused without asking the
    /// driver.
    pub fn refuse(&self, pos: &Placeholder) -> (refusal: Option<Error>)
        ensures
            refusal_view(refusal) == refused(self.positioned(), self.known_columns(), pos@),
    {
        if !self.has_next {
            return Some(Error::CursorNotPositioned);
        }
        match (&self.columns, pos) {
            (Some(columns), Placeholder::Index(index)) => {
                if *index >= columns.len() as u64 {
                    Some(Error::OutOfRange(*index))
                } else {
                    None
                }
            },
            _ => None,
        }
    }

    /// Finds the column that `pos` points at among `columns`, the columns of
    /// the result set.
    pub fn locate(&self, pos: &Placeholder, columns: &Vec<ColumnMetaData>) -> (found: Result<
        u64,
        Error,
    >)
        ensures
            position_view(found) == located(self.positioned(), columns_view(columns@), pos@),
    {
        if !self.has_next {
            return Err(Error::CursorNotPositioned);
        }
        match pos {
            Placeholder::Index(index) => {
                if *index < columns.len() as u64 {
                    Ok(*index)
                } else {
                    Err(Error::OutOfRange(*index))
                }
            },
            Placeholder::Name(name) => {
                let ghost names = column_names(columns_view(columns@));
                proof {
                    crate::table::lemma_position_of(names, name@);
                }
                let mut i: usize = 0;
                while i < columns.len()
                    invariant
                        i <= columns.len(),
                        self.has_next,
                        pos@ == PlaceholderView::Name(name@),
                        names == column_names(columns_view(columns@)),
                        names.len() == columns.len(),
                        forall|j: int| 0 <= j < i ==> names[j] != name@,
                        0 <= crate::table::position_of(names, name@) <= names.len(),
                        crate::table::position_of(names, name@) < names.len() ==> names[crate::table::position_of(
                            names,
                            name@,
                        )] == name@,
                        forall|j: int|
                            0 <= j < crate::table::position_of(names, name@) ==> names[j] != name@,
                    decreases columns.len() - i,
                {
                    if same_text(columns[i].column_name.as_str(), name.as_str()) {
                        proof {
                            let p = crate::table::position_of(names, name@);
                            assert(names[i as int] == name@);
                            if p < i {
                                assert(names[p] != name@);
                            }
                            if p > i {
                                assert(names[i as int] != name@);
                            }
                        }
                        return Ok(i as u64);
                    }
                    i += 1;
                }
                Err(Error::UnknownColumn(name.clone()))
            },
        }
    }
}

} // verus!
