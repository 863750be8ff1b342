//! How a table, its columns and its indexes are described.

pub mod col;
pub mod idx;

use vstd::prelude::*;
use crate::text::same_text;

verus! {

/// A table: its name, its columns and its indexes.
#[derive(Debug, Clone)]
pub struct TableRef {
    pub name: &'static str,
    pub columns: Vec<&'static ColumnRef>,
    pub indexes: Vec<&'static IndexRef>,
}

/// A column: its name, what it holds, and its declared SQL type if it has
/// one.
#[derive(Debug, Clone)]
pub struct ColumnRef {
    pub name: &'static str,
    pub col_type: ColumnType,
    pub col_decltype: Option<&'static str>,
}

/// What a column holds: a plain value, or a join to another table.
#[derive(Debug, Clone)]
pub enum ColumnType {
    RDBC(crate::value::ColumnType),
    OneToOne(JoinRef),
    OneToMany(JoinRef),
    ManyToMany(JoinRef),
    ManyToOne(JoinRef),
}

/// A join: the name of the joined table, the column it is joined on and the
/// kind of that column.
#[derive(Debug, Clone)]
pub struct JoinRef {
    pub name: &'static TableRef,
    pub rdbc_type: crate::value::ColumnType,
    pub join: &'static str,
    pub to: &'static str,
}

/// An index: its name, unique within the table, its kind and the columns it
/// covers.
#[derive(Debug, Clone)]
pub struct IndexRef {
    pub name: &'static str,
    pub idx_type: IndexType,
    pub col_group: &'static [&'static str],
}

/// The kind of an index.
#[derive(Debug, Clone, Copy, PartialEq, Eq, Structural)]
pub enum IndexType {
    Index,
    Primary,
    PrimaryAutoInc,
    Unique,
    Foreign,
}

/// The names of a row of columns, in order.
pub open spec fn names_of(columns: Seq<&'static ColumnRef>) -> Seq<Seq<char>> {
    columns.map_values(|c: &'static ColumnRef| c.name@)
}

impl TableRef {
    /// Whether the table has a column called `name`.
    pub fn has_column(&self, name: &str) -> (found: bool)
        ensures
            found == names_of(self.columns@).contains(name@),
    {
        let mut i: usize = 0;
        while i < self.columns.len()
            invariant
                i <= self.columns.len(),
                forall|j: int| 0 <= j < i ==> names_of(self.columns@)[j] != name@,
            decreases self.columns.len() - i,
        {
            if same_text(self.columns[i].name, name) {
                assert(names_of(self.columns@)[i as int] == name@);
                return true;
            }
            i += 1;
        }
        false
    }
}

} // verus!
