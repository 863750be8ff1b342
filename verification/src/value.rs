//! The typed data that crosses the boundary between the handles and a driver.

use vstd::prelude::*;
use vstd::std_specs::convert::FromSpecImpl;

verus! {

/// Names a parameter slot of a statement, or a column of a row.
#[derive(Debug, Clone, PartialEq, Eq)]
pub enum Placeholder {
    /// By name.
    Name(String),
    /// By position.
    Index(u64),
}

/// The mathematical value of a [`Placeholder`].
pub enum PlaceholderView {
    Name(Seq<char>),
    Index(u64),
}

impl View for Placeholder {
    type V = PlaceholderView;

    open spec fn view(&self) -> PlaceholderView {
        match *self {
            Placeholder::Name(name) => PlaceholderView::Name(name@),
            Placeholder::Index(index) => PlaceholderView::Index(index),
        }
    }
}

impl Placeholder {
    /// A copy with the same value.
    pub fn duplicate(&self) -> (copy: Placeholder)
        ensures
            copy@ == self@,
    {
        match self {
            Placeholder::Name(name) => Placeholder::Name(name.clone()),
            Placeholder::Index(index) => Placeholder::Index(*index),
        }
    }
}

impl From<u64> for Placeholder {
    fn from(data: u64) -> (placeholder: Placeholder) {
        Placeholder::Index(data)
    }
}

impl FromSpecImpl<u64> for Placeholder {
    open spec fn obeys_from_spec() -> bool {
        true
    }

    open spec fn from_spec(data: u64) -> Placeholder {
        Placeholder::Index(data)
    }
}

impl From<String> for Placeholder {
    fn from(data: String) -> (placeholder: Placeholder) {
        Placeholder::Name(data)
    }
}

impl FromSpecImpl<String> for Placeholder {
    open spec fn obeys_from_spec() -> bool {
        true
    }

    open spec fn from_spec(data: String) -> Placeholder {
        Placeholder::Name(data)
    }
}

impl<'a> From<&'a str> for Placeholder {
    fn from(data: &'a str) -> (placeholder: Placeholder)
        ensures
            placeholder@ == PlaceholderView::Name(data@),
    {
        Placeholder::Name(data.to_owned())
    }
}

impl<'a> FromSpecImpl<&'a str> for Placeholder {
    open spec fn obeys_from_spec() -> bool {
        false
    }

    open spec fn from_spec(data: &'a str) -> Placeholder {
        arbitrary()
    }
}

/// A typed payload: what is bound to a parameter or fetched from a column.
///
/// All integer widths travel as `I64`. A double travels as the 64 bits of its
/// IEEE 754 encoding.
#[derive(Debug, Clone, PartialEq, Eq)]
pub enum Value {
    I64(i64),
    F64(u64),
    String(String),
    Bytes(Vec<u8>),
    Null,
}

/// The mathematical value of a [`Value`].
pub enum ValueView {
    I64(i64),
    F64(u64),
    String(Seq<char>),
    Bytes(Seq<u8>),
    Null,
}

impl View for Value {
    type V = ValueView;

    open spec fn view(&self) -> ValueView {
        match *self {
            Value::I64(v) => ValueView::I64(v),
            Value::F64(bits) => ValueView::F64(bits),
            Value::String(text) => ValueView::String(text@),
            Value::Bytes(bytes) => ValueView::Bytes(bytes@),
            Value::Null => ValueView::Null,
        }
    }
}

impl Value {
    /// A copy with the same value.
    pub fn duplicate(&self) -> (copy: Value)
        ensures
            copy@ == self@,
    {
        match self {
            Value::I64(v) => Value::I64(*v),
            Value::F64(bits) => Value::F64(*bits),
            Value::String(text) => Value::String(text.clone()),
            Value::Bytes(bytes) => Value::Bytes(bytes.clone()),
            Value::Null => Value::Null,
        }
    }
}

/// The kind of value a caller asks a column to be read as.
#[derive(Debug, Clone, Copy, PartialEq, Eq, Structural)]
pub enum ColumnType {
    I64,
    F64,
    String,
    Bytes,
    Null,
}

/// One bound argument: where it goes and what it is.
#[derive(Debug, Clone, PartialEq, Eq)]
pub struct Arg {
    pub pos: Placeholder,
    pub value: Value,
}

impl View for Arg {
    type V = (PlaceholderView, ValueView);

    open spec fn view(&self) -> (PlaceholderView, ValueView) {
        (self.pos@, self.value@)
    }
}

impl Arg {
    /// A copy with the same value.
    pub fn duplicate(&self) -> (copy: Arg)
        ensures
            copy@ == self@,
    {
        Arg { pos: self.pos.duplicate(), value: self.value.duplicate() }
    }
}

/// The values of a list of arguments, in order.
pub open spec fn args_view(args: Seq<Arg>) -> Seq<(PlaceholderView, ValueView)> {
    args.map_values(|a: Arg| a@)
}

/// What a statement that returns no rows reports back.
#[derive(Debug, Clone, Copy, PartialEq, Eq, Structural)]
pub struct ExecuteResult {
    pub last_insert_id: u64,
    pub raws_affected: u64,
}

/// What a result set tells about one of its columns.
#[derive(Debug, Clone, PartialEq, Eq)]
pub struct ColumnMetaData {
    pub column_index: u64,
    pub column_name: String,
    pub column_decltype: String,
    pub column_decltype_len: Option<u64>,
}

/// The mathematical value of a [`ColumnMetaData`].
pub struct ColumnMetaDataView {
    pub column_index: u64,
    pub column_name: Seq<char>,
    pub column_decltype: Seq<char>,
    pub column_decltype_len: Option<u64>,
}

impl View for ColumnMetaData {
    type V = ColumnMetaDataView;

    open spec fn view(&self) -> ColumnMetaDataView {
        ColumnMetaDataView {
            column_index: self.column_index,
            column_name: self.column_name@,
            column_decltype: self.column_decltype@,
            column_decltype_len: self.column_decltype_len,
        }
    }
}

impl ColumnMetaData {
    /// A copy with the same value.
    pub fn duplicate(&self) -> (copy: ColumnMetaData)
        ensures
            copy@ == self@,
    {
        ColumnMetaData {
            column_index: self.column_index,
            column_name: self.column_name.clone(),
            column_decltype: self.column_decltype.clone(),
            column_decltype_len: self.column_decltype_len,
        }
    }
}

/// The values of a list of column descriptions, in order.
pub open spec fn columns_view(columns: Seq<ColumnMetaData>) -> Seq<ColumnMetaDataView> {
    columns.map_values(|c: ColumnMetaData| c@)
}

/// Copies a list of column descriptions.
pub fn duplicate_columns(columns: &Vec<ColumnMetaData>) -> (copy: Vec<ColumnMetaData>)
    ensures
        columns_view(copy@) == columns_view(columns@),
{
    let mut copy: Vec<ColumnMetaData> = Vec::new();
    let mut i: usize = 0;
    while i < columns.len()
        invariant
            i <= columns.len(),
            copy.len() == i,
            forall|j: int| 0 <= j < i ==> copy@[j]@ == columns@[j]@,
        decreases columns.len() - i,
    {
        copy.push(columns[i].duplicate());
        i += 1;
    }
    assert(columns_view(copy@) =~= columns_view(columns@));
    copy
}

} // verus!
