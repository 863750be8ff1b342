//! Which Rust values can sit in a column, and how they turn into the values
//! that cross the driver boundary and back.

use vstd::prelude::*;
use crate::error::{Error, ErrorView};
use crate::value::{ColumnType, Value, ValueView};

verus! {

/// A Rust type that can sit in a column.
///
/// `bound_as`, `read_from` and `kind` are what contracts speak of: what
/// `cast_to_rdbc_value` gives, what `cast_from_rdbc_value` gives, and the
/// answer of `rdbc_type`. Each is fixed by the value it is asked about.
pub trait ColumnValue: Sized {
    /// The value this turns into when it is bound, or why it cannot be
    /// bound.
    spec fn bound_as(&self) -> Result<ValueView, ErrorView>;

    /// What a value that a driver handed back is read as, or why it cannot
    /// be read as this type.
    spec fn read_from(value: Value) -> Result<Self, Error>;

    /// The kind a column of this type is read as.
    spec fn kind() -> ColumnType;

    fn rdbc_type() -> (kind: ColumnType)
        ensures
            kind == Self::kind(),
    ;

    fn cast_to_rdbc_value(&self) -> (cast: Result<Value, Error>)
        ensures
            cast_view(cast) == self.bound_as(),
    ;

    /// Reads a value of this type out of what a driver handed back.
    fn cast_from_rdbc_value(value: Value) -> (cast: Result<Self, Error>)
        ensures
            cast == Self::read_from(value),
    ;
}

impl ColumnValue for i64 {
    open spec fn bound_as(&self) -> Result<ValueView, ErrorView> {
        Ok(ValueView::I64(*self))
    }

    open spec fn kind() -> ColumnType {
        ColumnType::I64
    }

    fn rdbc_type() -> (kind: ColumnType) {
        ColumnType::I64
    }

    fn cast_to_rdbc_value(&self) -> (cast: Result<Value, Error>) {
        Ok(Value::I64(*self))
    }

    open spec fn read_from(value: Value) -> Result<i64, Error> {
        match value {
            Value::I64(v) => Ok(v),
            other => Err(Error::InvalidValue(other)),
        }
    }

    /// An integer is read as it is; anything else is refused.
    fn cast_from_rdbc_value(value: Value) -> (cast: Result<i64, Error>) {
        match value {
            Value::I64(v) => Ok(v),
            other => Err(Error::InvalidValue(other)),
        }
    }
}

impl ColumnValue for i8 {
    open spec fn bound_as(&self) -> Result<ValueView, ErrorView> {
        Ok(ValueView::I64(*self as i64))
    }

    open spec fn kind() -> ColumnType {
        ColumnType::I64
    }

    fn rdbc_type() -> (kind: ColumnType) {
        ColumnType::I64
    }

    fn cast_to_rdbc_value(&self) -> (cast: Result<Value, Error>) {
        Ok(Value::I64(#[verifier::truncate] (*self as i64)))
    }

    open spec fn read_from(value: Value) -> Result<i8, Error> {
        match value {
            Value::I64(v) => Ok(v as i8),
            other => Err(Error::InvalidValue(other)),
        }
    }

    /// An integer is cut down to the width of the type; anything else is
    /// refused.
    fn cast_from_rdbc_value(value: Value) -> (cast: Result<i8, Error>) {
        match value {
            Value::I64(v) => Ok(#[verifier::truncate] (v as i8)),
            other => Err(Error::InvalidValue(other)),
        }
    }
}

impl ColumnValue for u8 {
    open spec fn bound_as(&self) -> Result<ValueView, ErrorView> {
        Ok(ValueView::I64(*self as i64))
    }

    open spec fn kind() -> ColumnType {
        ColumnType::I64
    }

    fn rdbc_type() -> (kind: ColumnType) {
        ColumnType::I64
    }

    fn cast_to_rdbc_value(&self) -> (cast: Result<Value, Error>) {
        Ok(Value::I64(#[verifier::truncate] (*self as i64)))
    }

    open spec fn read_from(value: Value) -> Result<u8, Error> {
        match value {
            Value::I64(v) => Ok(v as u8),
            other => Err(Error::InvalidValue(other)),
        }
    }

    /// An integer is cut down to the width of the type; anything else is
    /// refused.
    fn cast_from_rdbc_value(value: Value) -> (cast: Result<u8, Error>) {
        match value {
            Value::I64(v) => Ok(#[verifier::truncate] (v as u8)),
            other => Err(Error::InvalidValue(other)),
        }
    }
}

impl ColumnValue for i16 {
    open spec fn bound_as(&self) -> Result<ValueView, ErrorView> {
        Ok(ValueView::I64(*self as i64))
    }

    open spec fn kind() -> ColumnType {
        ColumnType::I64
    }

    fn rdbc_type() -> (kind: ColumnType) {
        ColumnType::I64
    }

    fn cast_to_rdbc_value(&self) -> (cast: Result<Value, Error>) {
        Ok(Value::I64(#[verifier::truncate] (*self as i64)))
    }

    open spec fn read_from(value: Value) -> Result<i16, Error> {
        match value {
            Value::I64(v) => Ok(v as i16),
            other => Err(Error::InvalidValue(other)),
        }
    }

    /// An integer is cut down to the width of the type; anything else is
    /// refused.
    fn cast_from_rdbc_value(value: Value) -> (cast: Result<i16, Error>) {
        match value {
            Value::I64(v) => Ok(#[verifier::truncate] (v as i16)),
            other => Err(Error::InvalidValue(other)),
        }
    }
}

impl ColumnValue for u16 {
    open spec fn bound_as(&self) -> Result<ValueView, ErrorView> {
        Ok(ValueView::I64(*self as i64))
    }

    open spec fn kind() -> ColumnType {
        ColumnType::I64
    }

    fn rdbc_type() -> (kind: ColumnType) {
        ColumnType::I64
    }

    fn cast_to_rdbc_value(&self) -> (cast: Result<Value, Error>) {
        Ok(Value::I64(#[verifier::truncate] (*self as i64)))
    }

    open spec fn read_from(value: Value) -> Result<u16, Error> {
        match value {
            Value::I64(v) => Ok(v as u16),
            other => Err(Error::InvalidValue(other)),
        }
    }

    /// An integer is cut down to the width of the type; anything else is
    /// refused.
    fn cast_from_rdbc_value(value: Value) -> (cast: Result<u16, Error>) {
        match value {
            Value::I64(v) => Ok(#[verifier::truncate] (v as u16)),
            other => Err(Error::InvalidValue(other)),
        }
    }
}

impl ColumnValue for i32 {
    open spec fn bound_as(&self) -> Result<ValueView, ErrorView> {
        Ok(ValueView::I64(*self as i64))
    }

    open spec fn kind() -> ColumnType {
        ColumnType::I64
    }

    fn rdbc_type() -> (kind: ColumnType) {
        ColumnType::I64
    }

    fn cast_to_rdbc_value(&self) -> (cast: Result<Value, Error>) {
        Ok(Value::I64(#[verifier::truncate] (*self as i64)))
    }

    open spec fn read_from(value: Value) -> Result<i32, Error> {
        match value {
            Value::I64(v) => Ok(v as i32),
            other => Err(Error::InvalidValue(other)),
        }
    }

    /// An integer is cut down to the width of the type; anything else is
    /// refused.
    fn cast_from_rdbc_value(value: Value) -> (cast: Result<i32, Error>) {
        match value {
            Value::I64(v) => Ok(#[verifier::truncate] (v as i32)),
            other => Err(Error::InvalidValue(other)),
        }
    }
}

impl ColumnValue for u32 {
    open spec fn bound_as(&self) -> Result<ValueView, ErrorView> {
        Ok(ValueView::I64(*self as i64))
    }

    open spec fn kind() -> ColumnType {
        ColumnType::I64
    }

    fn rdbc_type() -> (kind: ColumnType) {
        ColumnType::I64
    }

    fn cast_to_rdbc_value(&self) -> (cast: Result<Value, Error>) {
        Ok(Value::I64(#[verifier::truncate] (*self as i64)))
    }

    open spec fn read_from(value: Value) -> Result<u32, Error> {
        match value {
            Value::I64(v) => Ok(v as u32),
            other => Err(Error::InvalidValue(other)),
        }
    }

    /// An integer is cut down to the width of the type; anything else is
    /// refused.
    fn cast_from_rdbc_value(value: Value) -> (cast: Result<u32, Error>) {
        match value {
            Value::I64(v) => Ok(#[verifier::truncate] (v as u32)),
            other => Err(Error::InvalidValue(other)),
        }
    }
}

impl ColumnValue for u64 {
    open spec fn bound_as(&self) -> Result<ValueView, ErrorView> {
        Ok(ValueView::I64(*self as i64))
    }

    open spec fn kind() -> ColumnType {
        ColumnType::I64
    }

    fn rdbc_type() -> (kind: ColumnType) {
        ColumnType::I64
    }

    fn cast_to_rdbc_value(&self) -> (cast: Result<Value, Error>) {
        Ok(Value::I64(#[verifier::truncate] (*self as i64)))
    }

    open spec fn read_from(value: Value) -> Result<u64, Error> {
        match value {
            Value::I64(v) => Ok(v as u64),
            other => Err(Error::InvalidValue(other)),
        }
    }

    /// An integer is cut down to the width of the type; anything else is
    /// refused.
    fn cast_from_rdbc_value(value: Value) -> (cast: Result<u64, Error>) {
        match value {
            Value::I64(v) => Ok(#[verifier::truncate] (v as u64)),
            other => Err(Error::InvalidValue(other)),
        }
    }
}

impl ColumnValue for String {
    open spec fn bound_as(&self) -> Result<ValueView, ErrorView> {
        Ok(ValueView::String(self@))
    }

    open spec fn kind() -> ColumnType {
        ColumnType::String
    }

    fn rdbc_type() -> (kind: ColumnType) {
        ColumnType::String
    }

    fn cast_to_rdbc_value(&self) -> (cast: Result<Value, Error>) {
        Ok(Value::String(self.clone()))
    }

    open spec fn read_from(value: Value) -> Result<String, Error> {
        match value {
            Value::String(v) => Ok(v),
            other => Err(Error::InvalidValue(other)),
        }
    }

    /// Text is read as it is; anything else is refused.
    fn cast_from_rdbc_value(value: Value) -> (cast: Result<String, Error>) {
        match value {
            Value::String(v) => Ok(v),
            other => Err(Error::InvalidValue(other)),
        }
    }
}

impl ColumnValue for Vec<u8> {
    open spec fn bound_as(&self) -> Result<ValueView, ErrorView> {
        Ok(ValueView::Bytes(self@))
    }

    open spec fn kind() -> ColumnType {
        ColumnType::Bytes
    }

    fn rdbc_type() -> (kind: ColumnType) {
        ColumnType::Bytes
    }

    fn cast_to_rdbc_value(&self) -> (cast: Result<Value, Error>) {
        Ok(Value::Bytes(self.clone()))
    }

    open spec fn read_from(value: Value) -> Result<Vec<u8>, Error> {
        match value {
            Value::Bytes(v) => Ok(v),
            other => Err(Error::InvalidValue(other)),
        }
    }

    /// Bytes are read as they are; anything else is refused.
    fn cast_from_rdbc_value(value: Value) -> (cast: Result<Vec<u8>, Error>) {
        match value {
            Value::Bytes(v) => Ok(v),
            other => Err(Error::InvalidValue(other)),
        }
    }
}

impl<T: ColumnValue> ColumnValue for Option<T> {
    open spec fn bound_as(&self) -> Result<ValueView, ErrorView> {
        match *self {
            Some(inner) => inner.bound_as(),
            None => Ok(ValueView::Null),
        }
    }

    open spec fn read_from(value: Value) -> Result<Option<T>, Error> {
        match value {
            Value::Null => Ok(None),
            other => match T::read_from(other) {
                Ok(inner) => Ok(Some(inner)),
                Err(e) => Err(e),
            },
        }
    }

    open spec fn kind() -> ColumnType {
        T::kind()
    }

    fn rdbc_type() -> (kind: ColumnType) {
        T::rdbc_type()
    }

    fn cast_to_rdbc_value(&self) -> (cast: Result<Value, Error>) {
        match self {
            None => Ok(Value::Null),
            Some(inner) => inner.cast_to_rdbc_value(),
        }
    }

    /// Null is read as nothing; anything else is read as `T` reads it.
    fn cast_from_rdbc_value(value: Value) -> (cast: Result<Option<T>, Error>) {
        match value {
            Value::Null => Ok(None),
            other => match T::cast_from_rdbc_value(other) {
                Ok(inner) => Ok(Some(inner)),
                Err(e) => Err(e),
            },
        }
    }
}

/// The value of a cast: the value's, or the error's.
pub open spec fn cast_view(cast: Result<Value, Error>) -> Result<ValueView, ErrorView> {
    match cast {
        Ok(value) => Ok(value@),
        Err(e) => Err(e@),
    }
}

} // verus!
