//! What a driver has to supply.
//!
//! A driver opens connections; a connection prepares statements and begins
//! transactions; a statement runs and may yield a cursor over rows. The
//! handles of this crate are written against these traits alone and hold for
//! every implementation of them.
//!
//! Two of the methods come in pairs: `id` with `ident`, and `num_input`
//! with `slots`. The second of each pair is what contracts speak of; an
//! implementation gives it the same answer as the first. Both answers are
//! fixed when the object is made.
//!
//! Every method that does work has a companion that contracts speak of:
//! `open` has `opens`, `prepare` has `prepares`, `begin` has `begins`,
//! `is_valid` has `says_valid`, `execute` has `executes`, `query` has
//! `queries`, `commit` has `commits`, `rollback` has `rolls_back`, `colunms`
//! has `describes`, `next` has `steps` and `get` has `gets`. The companion
//! says of an object, of what a call was handed, of an answer and of the
//! object afterwards whether the call can have gone that way. The handles
//! pass them on in their own contracts. An implementation that has nothing
//! to say answers `true`.

use vstd::prelude::*;
use crate::error::Error;
pub use crate::sqlite3::async_driver::Task;
pub use crate::value::{Arg, ColumnMetaData, ColumnType, ExecuteResult, Placeholder, Value};

verus! {

/// A cursor over the rows that one run of a statement produced.
pub trait Rows: Sized {
    /// Whether describing the columns can answer `outcome` and leave the
    /// cursor as `after`.
    spec fn describes(&self, outcome: Result<Vec<ColumnMetaData>, Error>, after: Self) -> bool;

    /// Whether a step can answer `outcome` and leave the cursor as `after`.
    spec fn steps(&self, outcome: Result<bool, Error>, after: Self) -> bool;

    /// Whether reading the column at `pos` as `column_type` can answer
    /// `outcome` and leave the cursor as `after`.
    spec fn gets(
        &self,
        pos: Placeholder,
        column_type: ColumnType,
        outcome: Result<Value, Error>,
        after: Self,
    ) -> bool;

    /// Describes the columns of the result set.
    fn colunms(&mut self) -> (outcome: Result<Vec<ColumnMetaData>, Error>)
        ensures
            old(self).describes(outcome, *final(self)),
    ;

    /// Steps to the next row; `Ok(false)` at the end of the set.
    fn next(&mut self) -> (outcome: Result<bool, Error>)
        ensures
            old(self).steps(outcome, *final(self)),
    ;

    /// Reads one column of the current row as the kind asked for.
    fn get(&mut self, pos: Placeholder, column_type: ColumnType) -> (outcome: Result<Value, Error>)
        ensures
            old(self).gets(pos, column_type, outcome, *final(self)),
    ;
}

/// A compiled statement, bound to the connection that prepared it.
pub trait Statement: Sized {
    type Rows: Rows;

    /// The number of parameter slots of the statement, if the driver knows
    /// it.
    spec fn slots(&self) -> Option<u32>;

    /// Returns the number of placeholder parameters.
    fn num_input(&self) -> (inputs: Option<u32>)
        ensures
            inputs == self.slots(),
    ;

    /// Whether running the statement with `args` can answer `outcome` and
    /// leave the statement as `after`.
    spec fn executes(
        &self,
        args: Vec<Arg>,
        outcome: Result<ExecuteResult, Error>,
        after: Self,
    ) -> bool;

    /// Runs a statement that returns no rows.
    fn execute(&mut self, args: Vec<Arg>) -> (outcome: Result<ExecuteResult, Error>)
        ensures
            old(self).executes(args, outcome, *final(self)),
    ;

    /// Whether running the statement with `args` for its rows can answer
    /// `outcome` and leave the statement as `after`.
    spec fn queries(&self, args: Vec<Arg>, outcome: Result<Self::Rows, Error>, after: Self) -> bool;

    /// Runs a statement that may return rows.
    fn query(&mut self, args: Vec<Arg>) -> (outcome: Result<Self::Rows, Error>)
        ensures
            old(self).queries(args, outcome, *final(self)),
    ;
}

/// A transaction in progress on one connection.
///
/// A driver must roll an unfinished transaction back when the object goes
/// away.
pub trait Transaction: Sized {
    type Statement: Statement;

    /// Whether preparing `query` can answer `outcome` and leave the
    /// transaction as `after`.
    spec fn prepares(
        &self,
        query: &str,
        outcome: Result<Self::Statement, Error>,
        after: Self,
    ) -> bool;

    fn prepare(&mut self, query: &str) -> (outcome: Result<Self::Statement, Error>)
        ensures
            old(self).prepares(query, outcome, *final(self)),
    ;

    /// Whether a commit can answer `outcome` and leave the transaction as
    /// `after`.
    spec fn commits(&self, outcome: Result<(), Error>, after: Self) -> bool;

    /// Whether a rollback can answer `outcome` and leave the transaction as
    /// `after`.
    spec fn rolls_back(&self, outcome: Result<(), Error>, after: Self) -> bool;

    fn commit(&mut self) -> (outcome: Result<(), Error>)
        ensures
            old(self).commits(outcome, *final(self)),
    ;

    fn rollback(&mut self) -> (outcome: Result<(), Error>)
        ensures
            old(self).rolls_back(outcome, *final(self)),
    ;
}

/// An open session against one database.
pub trait Connection: Sized {
    type Statement: Statement;

    type Transaction: Transaction<Statement = Self::Statement>;

    /// The id the driver gave this session; the pool keys on it.
    spec fn ident(&self) -> String;

    /// Whether preparing `query` can answer `outcome` and leave the
    /// connection as `after`.
    spec fn prepares(
        &self,
        query: &str,
        outcome: Result<Self::Statement, Error>,
        after: Self,
    ) -> bool;

    /// Whether beginning a transaction can answer `outcome` and leave the
    /// connection as `after`.
    spec fn begins(&self, outcome: Result<Self::Transaction, Error>, after: Self) -> bool;

    /// Whether the connection, asked for its status, can answer `valid`.
    spec fn says_valid(&self, valid: bool) -> bool;

    /// Returns a prepared statement, bound to this connection. The
    /// connection keeps its id.
    fn prepare(&mut self, query: &str) -> (outcome: Result<Self::Statement, Error>)
        ensures
            old(self).prepares(query, outcome, *final(self)),
            final(self).ident()@ == old(self).ident()@,
    ;

    /// Begins a transaction. The connection keeps its id.
    fn begin(&mut self) -> (outcome: Result<Self::Transaction, Error>)
        ensures
            old(self).begins(outcome, *final(self)),
            final(self).ident()@ == old(self).ident()@,
    ;

    /// Driver use this function to return connection status
    fn is_valid(&self) -> (valid: bool)
        ensures
            self.says_valid(valid),
    ;

    /// Get connection id
    fn id(&self) -> (id: &str)
        ensures
            id@ == self.ident()@,
    ;
}

/// Opens connections to the databases of one engine.
pub trait Driver: Sized {
    type Connection: Connection;

    /// Whether opening `url` can answer `outcome` and leave the driver as
    /// `after`.
    spec fn opens(
        &self,
        url: &str,
        outcome: Result<Self::Connection, Error>,
        after: Self,
    ) -> bool;

    /// Opens a new connection to the database that `url` names.
    fn open(&mut self, url: &str) -> (outcome: Result<Self::Connection, Error>)
        ensures
            old(self).opens(url, outcome, *final(self)),
    ;
}

} // verus!
