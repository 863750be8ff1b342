//! The statement a caller holds.

use vstd::prelude::*;
use crate::driver;
use crate::driver::Connection;
use crate::error::Error;
use crate::pool::{with_returned, ConnectionPool};
use crate::rows::Rows;
use crate::value::{Arg, ExecuteResult};

verus! {

/// A driver's statement, and the connection that was checked out for it.
///
/// A statement prepared through a database owns its connection until it is
/// closed. One prepared inside a transaction owns none: it works on the
/// transaction's connection.
pub struct Statement<C: Connection> {
    conn: Option<C>,
    statement: C::Statement,
}

impl<C: Connection> Statement<C> {
    /// The connection this statement owns, if any.
    pub closed spec fn connection(&self) -> Option<C> {
        self.conn
    }

    /// The driver's statement.
    pub closed spec fn inner(&self) -> C::Statement {
        self.statement
    }

    /// Whether closing this statement returns a connection to the pool.
    pub open spec fn owns_connection(&self) -> bool {
        self.connection() is Some
    }

    /// Wraps a driver's statement, with the connection it borrows if it
    /// borrows one.
    pub fn new(conn: Option<C>, statement: C::Statement) -> (wrapped: Self)
        ensures
            wrapped.connection() == conn,
            wrapped.inner() == statement,
    {
        Statement { conn, statement }
    }

    /// Whether closing this statement returns a connection to the pool.
    pub fn has_connection(&self) -> (owns: bool)
        ensures
            owns == self.owns_connection(),
    {
        self.conn.is_some()
    }

    /// The number of parameter slots, if the driver knows it.
    pub fn num_input(&self) -> (inputs: Option<u32>)
        ensures
            inputs == driver::Statement::slots(&self.inner()),
    {
        driver::Statement::num_input(&self.statement)
    }

    /// Runs a statement that returns no rows, such as an INSERT or UPDATE.
    /// The arguments go to the driver's statement as they are, and its
    /// answer comes back as it is; the connection is not touched.
    pub fn execute(&mut self, args: Vec<Arg>) -> (outcome: Result<ExecuteResult, Error>)
        ensures
            final(self).connection() == old(self).connection(),
            driver::Statement::executes(&old(self).inner(), args, outcome, final(self).inner()),
    {
        driver::Statement::execute(&mut self.statement, args)
    }

    /// Runs a statement that may return rows, such as a SELECT. The
    /// arguments go to the driver's statement as they are. The cursor it
    /// answers with comes back wrapped, standing before the first row and
    /// knowing no columns; its error comes back as it is.
    pub fn query(&mut self, args: Vec<Arg>) -> (outcome: Result<
        Rows<<C::Statement as driver::Statement>::Rows>,
        Error,
    >)
        ensures
            final(self).connection() == old(self).connection(),
            exists|queried: Result<<C::Statement as driver::Statement>::Rows, Error>|
                #[trigger] driver::Statement::queries(
                    &old(self).inner(),
                    args,
                    queried,
                    final(self).inner(),
                ) && match queried {
                    Ok(rows) => outcome matches Ok(wrapped) && wrapped.inner() == rows
                        && !wrapped.positioned() && wrapped.known_columns() is None,
                    Err(e) => outcome matches Err(passed) && passed == e,
                },
    {
        let queried = driver::Statement::query(&mut self.statement, args);
        assert(driver::Statement::queries(&old(self).inner(), args, queried, self.inner()));
        Rows::wrap(queried)
    }

    /// Wraps what a driver answered to a prepare on a connection that stays
    /// with its owner: a statement that owns no connection, or the driver's
    /// error as it is.
    pub fn borrowing(prepared: Result<C::Statement, Error>) -> (outcome: Result<Self, Error>)
        ensures
            match prepared {
                Ok(statement) => outcome matches Ok(wrapped) && wrapped.connection() is None
                    && wrapped.inner() == statement,
                Err(e) => outcome matches Err(passed) && passed == e,
            },
    {
        match prepared {
            Ok(statement) => Ok(Statement::new(None, statement)),
            Err(e) => Err(e),
        }
    }

    /// The driver's statement, to ask it something. The connection stays as
    /// it is.
    pub fn inner_mut(&mut self) -> (inner: &mut C::Statement)
        ensures
            *inner == old(self).inner(),
            final(self).inner() == *final(inner),
            final(self).connection() == old(self).connection(),
    {
        &mut self.statement
    }

    /// Ends the statement: the driver's statement is finalized first, then
    /// the connection, if one is owned, goes back to `pool`.
    pub fn close(self, pool: &mut ConnectionPool<C>)
        requires
            old(pool).wf(),
        ensures
            final(pool).wf(),
            final(pool)@ == match self.connection() {
                Some(connection) => with_returned(old(pool)@, connection),
                None => old(pool)@,
            },
    {
        let Statement { conn, statement } = self;
        {
            let _finalized = statement;
        }
        match conn {
            Some(connection) => pool.give_back(connection),
            None => {},
        }
    }
}

} // verus!
