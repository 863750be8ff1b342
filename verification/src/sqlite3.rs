//! The reference driver for SQLite: what it decides, apart from the native
//! calls themselves.
//!
//! The native library is reached from outside this crate. Each function here
//! takes what a native call reported, as plain values, and says what follows
//! from it.

pub mod async_driver;
pub mod error;
pub mod sqlite3_rs;

use vstd::prelude::*;
use crate::datasource::{registered, unit_view, with_registered, DataSource};
use crate::driver::Driver;
use crate::error::Error;

verus! {

/// The name the reference driver is registered under.
pub open spec fn driver_name() -> Seq<char> {
    "sqlite3"@
}

/// Registers `driver` as the reference driver, under the name `sqlite3`.
pub fn register_sqlite3<D: Driver>(source: &mut DataSource<D>, driver: D) -> (outcome: Result<
    (),
    Error,
>)
    requires
        old(source).wf(),
    ensures
        final(source).wf(),
        unit_view(outcome) == registered(old(source)@.dom(), driver_name()),
        final(source)@ == with_registered(old(source)@, driver_name(), driver),
{
    source.register_driver("sqlite3", driver)
}

} // verus!
