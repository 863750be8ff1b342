//! Entry point for writing records through something that prepares
//! statements.

use vstd::prelude::*;
use crate::error::Error;
use crate::orm::serde::Entity;

verus! {

/// Holds what statements are prepared on.
pub struct CRUD<P> {
    prepare: P,
}

impl<P> CRUD<P> {
    /// What statements are prepared on.
    pub closed spec fn target(&self) -> P {
        self.prepare
    }

    pub fn new(prepare: P) -> (crud: Self)
        ensures
            crud.target() == prepare,
    {
        Self { prepare }
    }

    /// Looks up the table of the record. Nothing is written yet.
    pub fn insert<T: Entity>(t: &T) -> (outcome: Result<(), Error>)
        ensures
            outcome is Ok,
    {
        let _table_ref = T::schema();
        Ok(())
    }

    /// Gives back what statements were prepared on.
    pub fn into_inner(self) -> (prepare: P)
        ensures
            prepare == self.target(),
    {
        self.prepare
    }
}

} // verus!
