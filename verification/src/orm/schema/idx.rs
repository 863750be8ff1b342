//! An index as a record type declares it.

use vstd::prelude::*;

verus! {

/// Indexer declare object
pub struct IndexDef<'a> {
    /// index name, multicolumn indexer using the same name
    pub name: &'a str,
    /// indexer declare column name
    pub for_columns: &'a [&'a str],
    pub index_type: IndexType,
}

/// The kind of a declared index.
#[derive(Debug, Clone, Copy, PartialEq, Eq, Structural)]
pub enum IndexType {
    Index,
    Unique,
    Primary,
    PrimaryAutoInc,
}

} // verus!
