//! The driver registry: drivers by name.

use vstd::prelude::*;
use crate::database::Database;
use crate::driver::Driver;
use crate::error::{Error, ErrorView};
use crate::table::Table;

verus! {

/// Drivers registered under their names. A name is taken at most once.
pub struct DataSource<D: Driver> {
    drivers: Table<D>,
}

/// What registering under `name` answers, given the names already taken.
pub open spec fn registered(taken: Set<Seq<char>>, name: Seq<char>) -> Result<(), ErrorView> {
    if taken.contains(name) {
        Err(ErrorView::DuplicateDriver(name))
    } else {
        Ok(())
    }
}

/// The registry after an attempt to register `driver` under `name`.
pub open spec fn with_registered<D>(drivers: Map<Seq<char>, D>, name: Seq<char>, driver: D) -> Map<
    Seq<char>,
    D,
> {
    if drivers.contains_key(name) {
        drivers
    } else {
        drivers.insert(name, driver)
    }
}

/// Registering under a name twice fails the second time with
/// `DuplicateDriver`, whatever was registered before and whichever drivers
/// are offered, and the second attempt leaves the registry as the first left
/// it.
pub proof fn lemma_second_registration_fails<D>(
    drivers: Map<Seq<char>, D>,
    name: Seq<char>,
    first: D,
    second: D,
)
    ensures
        registered(with_registered(drivers, name, first).dom(), name) == Err::<(), ErrorView>(
            ErrorView::DuplicateDriver(name),
        ),
        with_registered(with_registered(drivers, name, first), name, second) == with_registered(
            drivers,
            name,
            first,
        ),
{
}

/// A name that was unregistered can be registered again, and opening it in
/// between fails: after `remove`, the name is free.
pub proof fn lemma_unregistered_is_free<D>(drivers: Map<Seq<char>, D>, name: Seq<char>)
    ensures
        registered(drivers.remove(name).dom(), name) == Ok::<(), ErrorView>(()),
        drivers.remove(name).remove(name) == drivers.remove(name),
{
    assert(drivers.remove(name).remove(name) =~= drivers.remove(name));
}

/// The value of an answer without payload.
pub open spec fn unit_view(r: Result<(), Error>) -> Result<(), ErrorView> {
    match r {
        Ok(()) => Ok(()),
        Err(e) => Err(e@),
    }
}

impl<D: Driver> View for DataSource<D> {
    type V = Map<Seq<char>, D>;

    /// The drivers by name.
    closed spec fn view(&self) -> Map<Seq<char>, D> {
        self.drivers.as_map()
    }
}

impl<D: Driver> DataSource<D> {
    /// The registry holds each name once.
    pub closed spec fn wf(&self) -> bool {
        self.drivers.wf()
    }

    /// A registry without drivers.
    pub fn new() -> (source: Self)
        ensures
            source.wf(),
            source@ == Map::<Seq<char>, D>::empty(),
    {
        let source = DataSource { drivers: Table::new() };
        assert(source@ =~= Map::<Seq<char>, D>::empty());
        source
    }

    /// Registers `driver` under `name`. Fails with `DuplicateDriver` when the
    /// name is taken; the registry is then left as it was.
    pub fn register_driver(&mut self, name: &str, driver: D) -> (outcome: Result<(), Error>)
        requires
            old(self).wf(),
        ensures
            final(self).wf(),
            unit_view(outcome) == registered(old(self)@.dom(), name@),
            final(self)@ == with_registered(old(self)@, name@, driver),
    {
        if self.drivers.contains_key(name) {
            return Err(Error::DuplicateDriver(name.to_owned()));
        }
        let _ = self.drivers.insert(name.to_owned(), driver);
        Ok(())
    }

    /// Removes the driver under `name`, if there is one.
    pub fn unregister_driver(&mut self, name: &str) -> (outcome: Result<(), Error>)
        requires
            old(self).wf(),
        ensures
            final(self).wf(),
            outcome is Ok,
            final(self)@ == old(self)@.remove(name@),
    {
        let _ = self.drivers.remove(name);
        Ok(())
    }

    /// Hands out a database handle for `url` on the driver called `name`.
    /// Fails with `UnknownDriver` when no such driver is registered. Nothing
    /// is dialled: the handle starts with an empty pool.
    pub fn open(&mut self, name: &str, url: &str) -> (outcome: Result<
        Database<D::Connection>,
        Error,
    >)
        requires
            old(self).wf(),
        ensures
            final(self).wf(),
            final(self)@ == old(self)@,
            match outcome {
                Ok(database) => {
                    &&& old(self)@.contains_key(name@)
                    &&& database.wf()
                    &&& database.name() == name@
                    &&& database.url() == url@
                    &&& database.pool() == Seq::<D::Connection>::empty()
                },
                Err(e) => !old(self)@.contains_key(name@) && e@ == ErrorView::UnknownDriver(name@),
            },
    {
        if !self.drivers.contains_key(name) {
            return Err(Error::UnknownDriver(name.to_owned()));
        }
        Ok(Database::new(name, url))
    }

    /// The driver under `name`, for use, or `UnknownDriver` when none is
    /// registered under that name.
    pub fn driver_or_unknown(&mut self, name: &str) -> (found: Result<&mut D, Error>)
        requires
            old(self).wf(),
        ensures
            final(self).wf(),
            final(self)@.dom() == old(self)@.dom(),
            match found {
                Ok(driver) => {
                    &&& old(self)@.contains_key(name@)
                    &&& *driver == old(self)@[name@]
                    &&& final(self)@ == old(self)@.insert(name@, *final(driver))
                },
                Err(e) => {
                    &&& !old(self)@.contains_key(name@)
                    &&& e@ == ErrorView::UnknownDriver(name@)
                    &&& final(self)@ == old(self)@
                },
            },
    {
        match self.drivers.get_mut(name) {
            Some(driver) => Ok(driver),
            None => Err(Error::UnknownDriver(name.to_owned())),
        }
    }

    /// The driver under `name`, for use.
    pub fn driver_mut(&mut self, name: &str) -> (found: Option<&mut D>)
        requires
            old(self).wf(),
        ensures
            final(self).wf(),
            final(self)@.dom() == old(self)@.dom(),
            match found {
                Some(driver) => {
                    &&& old(self)@.contains_key(name@)
                    &&& *driver == old(self)@[name@]
                    &&& final(self)@ == old(self)@.insert(name@, *final(driver))
                },
                None => !old(self)@.contains_key(name@) && final(self)@ == old(self)@,
            },
    {
        self.drivers.get_mut(name)
    }
}

} // verus!
