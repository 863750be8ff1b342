//! The fields of a record: plain columns and joins.

use vstd::prelude::*;
use crate::error::Error;
use crate::orm::schema::ColumnRef;
use crate::orm::serde::{
    join_shape, Deserializable, Deserializer, Entity, Serializable, Serializer,
};
use crate::orm::value::ColumnValue;
use crate::value::Value;

verus! {

/// ORM table normal field
pub struct Column<T: ColumnValue> {
    pub data: Option<T>,
}

/// ORM table join to field define, specially for one to one relationship
pub struct OneToOne<T: Entity> {
    pub data: Option<std::sync::Arc<T>>,
}

/// ORM table join to field define, specially for one to many relationship
pub struct OneToMany<T: Entity> {
    pub data: Option<Vec<std::sync::Arc<T>>>,
}

/// ORM table join to field define, specially for many to many relationship
pub struct ManyToMany<T: Entity> {
    pub data: Option<Vec<std::sync::Arc<T>>>,
}

/// ORM table join to field define, specially for many to one relationship
pub struct ManyToOne<T: Entity> {
    pub data: Option<std::sync::Arc<T>>,
}

/// Copies a row of shared records; the records themselves are shared.
pub fn share_all<T>(records: &Vec<std::sync::Arc<T>>) -> (copy: Vec<std::sync::Arc<T>>)
    ensures
        copy@ == records@,
{
    let mut copy: Vec<std::sync::Arc<T>> = Vec::new();
    let mut i: usize = 0;
    while i < records.len()
        invariant
            i <= records.len(),
            copy@ == records@.subrange(0, i as int),
        decreases records.len() - i,
    {
        copy.push(records[i].clone());
        assert(copy@ =~= records@.subrange(0, i + 1));
        i += 1;
    }
    assert(records@.subrange(0, records.len() as int) =~= records@);
    copy
}

impl<T: ColumnValue> Serializable for Column<T> {
    /// A column that holds a value hands it to the serializer, as the value
    /// it is bound as, and passes the serializer's answer on; a value that
    /// cannot be bound fails with its own error before the serializer is
    /// asked. An empty column hands nothing and goes well.
    fn serialize<S: Serializer>(&self, col: &ColumnRef, s: &mut S) -> (outcome: Result<(), Error>)
        ensures
            match self.data {
                Some(data) => match data.bound_as() {
                    Ok(bound) => exists|value: Value|
                        value@ == bound && #[trigger] old(s).takes_col(
                            col,
                            value,
                            outcome,
                            *final(s),
                        ),
                    Err(e) => (outcome matches Err(failure) && failure@ == e) && *final(s) == *old(
                        s,
                    ),
                },
                None => outcome is Ok && *final(s) == *old(s),
            },
    {
        match &self.data {
            Some(data) => match data.cast_to_rdbc_value() {
                Ok(value) => s.serialize_col(col, value),
                Err(e) => Err(e),
            },
            None => Ok(()),
        }
    }
}

impl<T: Entity> Serializable for OneToOne<T> {
    /// A join that points at a record hands that one record to the
    /// serializer and passes its answer on. An empty join hands nothing and
    /// goes well.
    fn serialize<S: Serializer>(&self, col: &ColumnRef, s: &mut S) -> (outcome: Result<(), Error>)
        ensures
            match self.data {
                Some(_) => old(s).takes_join(col, 1, outcome, *final(s)),
                None => outcome is Ok && *final(s) == *old(s),
            },
    {
        match &self.data {
            Some(data) => {
                let mut join: Vec<std::sync::Arc<T>> = Vec::new();
                join.push(data.clone());
                s.serialize_join_to(col, join)
            },
            None => Ok(()),
        }
    }
}

impl<T: Entity> Serializable for OneToMany<T> {
    /// A join that holds records hands all of them to the serializer, in
    /// their order, and passes its answer on. An empty join hands nothing
    /// and goes well.
    fn serialize<S: Serializer>(&self, col: &ColumnRef, s: &mut S) -> (outcome: Result<(), Error>)
        ensures
            match self.data {
                Some(data) => old(s).takes_join(col, data.len(), outcome, *final(s)),
                None => outcome is Ok && *final(s) == *old(s),
            },
    {
        match &self.data {
            Some(data) => s.serialize_join_to(col, share_all(data)),
            None => Ok(()),
        }
    }
}

impl<T: Entity> Serializable for ManyToMany<T> {
    /// A join that holds records hands all of them to the serializer, in
    /// their order, and passes its answer on. An empty join hands nothing
    /// and goes well.
    fn serialize<S: Serializer>(&self, col: &ColumnRef, s: &mut S) -> (outcome: Result<(), Error>)
        ensures
            match self.data {
                Some(data) => old(s).takes_join(col, data.len(), outcome, *final(s)),
                None => outcome is Ok && *final(s) == *old(s),
            },
    {
        match &self.data {
            Some(data) => s.serialize_join_to(col, share_all(data)),
            None => Ok(()),
        }
    }
}

impl<T: Entity> Serializable for ManyToOne<T> {
    /// A join that points at a record hands that one record to the
    /// serializer and passes its answer on. An empty join hands nothing and
    /// goes well.
    fn serialize<S: Serializer>(&self, col: &ColumnRef, s: &mut S) -> (outcome: Result<(), Error>)
        ensures
            match self.data {
                Some(_) => old(s).takes_join(col, 1, outcome, *final(s)),
                None => outcome is Ok && *final(s) == *old(s),
            },
    {
        match &self.data {
            Some(data) => {
                let mut join: Vec<std::sync::Arc<T>> = Vec::new();
                join.push(data.clone());
                s.serialize_join_to(col, join)
            },
            None => Ok(()),
        }
    }
}

/// The first of a row of shared records, if there is one.
pub fn first_shared<T>(records: Option<Vec<std::sync::Arc<T>>>) -> (first: Option<std::sync::Arc<T>>)
    ensures
        first == match records {
            Some(all) => if all.len() > 0 {
                Some(all[0])
            } else {
                None
            },
            None => None,
        },
{
    match records {
        Some(all) => {
            if all.len() > 0 {
                Some(all[0].clone())
            } else {
                None
            }
        },
        None => None,
    }
}

impl<T: ColumnValue> Deserializable for Column<T> {
    /// A row that has a value for the column gives a column that holds it,
    /// read as `T` reads it; a row that has none gives nothing. A failure of
    /// the deserializer or of the reading is passed on.
    fn dserialize<D: Deserializer>(col: &ColumnRef, d: &mut D) -> (read: Result<Option<Self>, Error>)
        ensures
            exists|fetched: Result<Option<Value>, Error>|
                #[trigger] old(d).gave_col(col, fetched, *final(d)) && read == column_read::<T>(
                    fetched,
                ),
    {
        match d.deserialize_col(col) {
            Ok(Some(value)) => match T::cast_from_rdbc_value(value) {
                Ok(data) => Ok(Some(Column { data: Some(data) })),
                Err(e) => Err(e),
            },
            Ok(None) => Ok(None),
            Err(e) => Err(e),
        }
    }
}

impl<T: Entity> Deserializable for OneToOne<T> {
    /// The first of the records that the deserializer hands out for the
    /// column; nothing when it hands out none. A failure of the deserializer
    /// is passed on.
    fn dserialize<D: Deserializer>(col: &ColumnRef, d: &mut D) -> (read: Result<Option<Self>, Error>)
        ensures
            exists|fetched: Result<Option<Vec<std::sync::Arc<T>>>, Error>|
                #[trigger] old(d).gave_join(col, join_shape(fetched), *final(d)) && match first_read(
                    fetched,
                ) {
                    Ok(Some(first)) => read matches Ok(Some(joined)) && joined.data == Some(first),
                    Ok(None) => read matches Ok(None),
                    Err(e) => read matches Err(failure) && failure == e,
                },
    {
        match d.deserialize_join_to::<T>(col) {
            Ok(records) => match first_shared(records) {
                Some(data) => Ok(Some(OneToOne { data: Some(data) })),
                None => Ok(None),
            },
            Err(e) => Err(e),
        }
    }
}

impl<T: Entity> Deserializable for OneToMany<T> {
    /// What the deserializer hands out for the column, as it is. A failure
    /// of the deserializer is passed on.
    fn dserialize<D: Deserializer>(col: &ColumnRef, d: &mut D) -> (read: Result<Option<Self>, Error>)
        ensures
            exists|fetched: Result<Option<Vec<std::sync::Arc<T>>>, Error>|
                #[trigger] old(d).gave_join(col, join_shape(fetched), *final(d)) && match fetched {
                    Ok(records) => read matches Ok(Some(joined)) && joined.data == records,
                    Err(e) => read matches Err(failure) && failure == e,
                },
    {
        match d.deserialize_join_to::<T>(col) {
            Ok(data) => Ok(Some(OneToMany { data })),
            Err(e) => Err(e),
        }
    }
}

impl<T: Entity> Deserializable for ManyToMany<T> {
    /// What the deserializer hands out for the column, as it is. A failure
    /// of the deserializer is passed on.
    fn dserialize<D: Deserializer>(col: &ColumnRef, d: &mut D) -> (read: Result<Option<Self>, Error>)
        ensures
            exists|fetched: Result<Option<Vec<std::sync::Arc<T>>>, Error>|
                #[trigger] old(d).gave_join(col, join_shape(fetched), *final(d)) && match fetched {
                    Ok(records) => read matches Ok(Some(joined)) && joined.data == records,
                    Err(e) => read matches Err(failure) && failure == e,
                },
    {
        match d.deserialize_join_to::<T>(col) {
            Ok(data) => Ok(Some(ManyToMany { data })),
            Err(e) => Err(e),
        }
    }
}

impl<T: Entity> Deserializable for ManyToOne<T> {
    /// The first of the records that the deserializer hands out for the
    /// column; nothing when it hands out none. A failure of the deserializer
    /// is passed on.
    fn dserialize<D: Deserializer>(col: &ColumnRef, d: &mut D) -> (read: Result<Option<Self>, Error>)
        ensures
            exists|fetched: Result<Option<Vec<std::sync::Arc<T>>>, Error>|
                #[trigger] old(d).gave_join(col, join_shape(fetched), *final(d)) && match first_read(
                    fetched,
                ) {
                    Ok(Some(first)) => read matches Ok(Some(joined)) && joined.data == Some(first),
                    Ok(None) => read matches Ok(None),
                    Err(e) => read matches Err(failure) && failure == e,
                },
    {
        match d.deserialize_join_to::<T>(col) {
            Ok(records) => match first_shared(records) {
                Some(data) => Ok(Some(ManyToOne { data: Some(data) })),
                None => Ok(None),
            },
            Err(e) => Err(e),
        }
    }
}

/// What a plain column is read as, from what the deserializer handed out.
pub open spec fn column_read<T: ColumnValue>(fetched: Result<Option<Value>, Error>) -> Result<
    Option<Column<T>>,
    Error,
> {
    match fetched {
        Ok(Some(value)) => match T::read_from(value) {
            Ok(data) => Ok(Some(Column { data: Some(data) })),
            Err(e) => Err(e),
        },
        Ok(None) => Ok(None),
        Err(e) => Err(e),
    }
}

/// The first of the records that the deserializer handed out, if it handed
/// out any.
pub open spec fn first_read<T>(fetched: Result<Option<Vec<std::sync::Arc<T>>>, Error>) -> Result<
    Option<std::sync::Arc<T>>,
    Error,
> {
    match fetched {
        Ok(Some(records)) => if records.len() > 0 {
            Ok(Some(records[0]))
        } else {
            Ok(None)
        },
        Ok(None) => Ok(None),
        Err(e) => Err(e),
    }
}

} // verus!
