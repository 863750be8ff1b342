//! The error kinds that surface from the registry, the pool, the handles and
//! the reference driver.

use vstd::prelude::*;
use crate::value::{Placeholder, PlaceholderView, Value, ValueView};

verus! {

/// Everything that can go wrong at this layer.
#[derive(Debug, Clone, PartialEq, Eq)]
pub enum Error {
    /// No driver is registered under this name.
    UnknownDriver(String),
    /// A driver is already registered under this name.
    DuplicateDriver(String),
    /// The native library answered with a result code other than success;
    /// carries the code and the library's message.
    DriverNative(i32, String),
    /// A statement run with `execute` produced a row instead of completing.
    UnexpectedRows,
    /// `get` was called before `next`, or after the end of the result set.
    CursorNotPositioned,
    /// The column index is not below the number of columns.
    OutOfRange(u64),
    /// The worker holds no resource under this id.
    ResourceNotFound(String),
    /// The value for this placeholder could not be bound.
    BindFailure(Placeholder),
    /// The worker is gone and the task could not be handed over.
    ChannelClosed,
    /// A column was addressed by a name the result set does not have.
    UnknownColumn(String),
    /// The text holds no statement at all.
    InvalidSql(String),
    /// Text bound for the native library holds a NUL character.
    InteriorNul(String),
    /// A value is not of the kind that was to be read from it.
    InvalidValue(Value),
}

/// The mathematical value of an [`Error`]: strings as character sequences.
pub enum ErrorView {
    UnknownDriver(Seq<char>),
    DuplicateDriver(Seq<char>),
    DriverNative(i32, Seq<char>),
    UnexpectedRows,
    CursorNotPositioned,
    OutOfRange(u64),
    ResourceNotFound(Seq<char>),
    BindFailure(PlaceholderView),
    ChannelClosed,
    UnknownColumn(Seq<char>),
    InvalidSql(Seq<char>),
    InteriorNul(Seq<char>),
    InvalidValue(ValueView),
}

impl View for Error {
    type V = ErrorView;

    open spec fn view(&self) -> ErrorView {
        match *self {
            Error::UnknownDriver(name) => ErrorView::UnknownDriver(name@),
            Error::DuplicateDriver(name) => ErrorView::DuplicateDriver(name@),
            Error::DriverNative(code, message) => ErrorView::DriverNative(code, message@),
            Error::UnexpectedRows => ErrorView::UnexpectedRows,
            Error::CursorNotPositioned => ErrorView::CursorNotPositioned,
            Error::OutOfRange(index) => ErrorView::OutOfRange(index),
            Error::ResourceNotFound(id) => ErrorView::ResourceNotFound(id@),
            Error::BindFailure(placeholder) => ErrorView::BindFailure(placeholder@),
            Error::ChannelClosed => ErrorView::ChannelClosed,
            Error::UnknownColumn(name) => ErrorView::UnknownColumn(name@),
            Error::InvalidSql(sql) => ErrorView::InvalidSql(sql@),
            Error::InteriorNul(text) => ErrorView::InteriorNul(text@),
            Error::InvalidValue(value) => ErrorView::InvalidValue(value@),
        }
    }
}

impl Error {
    /// A copy with the same value.
    pub fn duplicate(&self) -> (copy: Error)
        ensures
            copy@ == self@,
    {
        match self {
            Error::UnknownDriver(name) => Error::UnknownDriver(name.clone()),
            Error::DuplicateDriver(name) => Error::DuplicateDriver(name.clone()),
            Error::DriverNative(code, message) => Error::DriverNative(*code, message.clone()),
            Error::UnexpectedRows => Error::UnexpectedRows,
            Error::CursorNotPositioned => Error::CursorNotPositioned,
            Error::OutOfRange(index) => Error::OutOfRange(*index),
            Error::ResourceNotFound(id) => Error::ResourceNotFound(id.clone()),
            Error::BindFailure(placeholder) => Error::BindFailure(placeholder.duplicate()),
            Error::ChannelClosed => Error::ChannelClosed,
            Error::UnknownColumn(name) => Error::UnknownColumn(name.clone()),
            Error::InvalidSql(sql) => Error::InvalidSql(sql.clone()),
            Error::InteriorNul(text) => Error::InteriorNul(text.clone()),
            Error::InvalidValue(value) => Error::InvalidValue(value.duplicate()),
        }
    }
}

} // verus!
