//! The front door to one database: borrows connections, prepares
//! statements, begins transactions.

use vstd::prelude::*;
use crate::datasource::DataSource;
use crate::driver::{Connection, Driver};
use crate::error::{Error, ErrorView};
use crate::pool::{checkout_leaves, with_returned, ConnectionPool};
use crate::statement::Statement;
use crate::transaction::{Transaction, TxState};

verus! {

/// What getting a connection makes of the pool and of the drivers.
///
/// The pool is scanned first. A connection that it hands out is the
/// answer, and no driver is touched. When it hands out none, the driver
/// registered under `name` is asked to open `url`, and what it answers is
/// the answer; no other driver is touched. When no driver is registered
/// under `name`, the answer is `UnknownDriver`.
pub open spec fn acquires<C: Connection, D: Driver<Connection = C>>(
    pool: Seq<C>,
    name: Seq<char>,
    url: Seq<char>,
    drivers: Map<Seq<char>, D>,
    outcome: Result<C, Error>,
    pool_after: Seq<C>,
    drivers_after: Map<Seq<char>, D>,
) -> bool {
    exists|picked: Option<C>| #[trigger]
        checkout_leaves(pool, picked, pool_after) && match picked {
            Some(connection) => outcome == Ok::<C, Error>(connection) && drivers_after == drivers,
            None => if drivers.contains_key(name) {
                &&& drivers_after.contains_key(name)
                &&& drivers_after == drivers.insert(name, drivers_after[name])
                &&& exists|text: &str|
                    text@ == url && #[trigger] drivers[name].opens(
                        text,
                        outcome,
                        drivers_after[name],
                    )
            } else {
                &&& outcome matches Err(e) && e@ == ErrorView::UnknownDriver(name)
                &&& drivers_after == drivers
            },
        }
}

/// What preparing `query` on `connection` makes of the pool `pool`: the
/// connection is asked to prepare the query and keeps its id. A statement
/// that it answers with comes back wrapped and owns the connection, and the
/// pool is left alone; on an error the connection goes back to the pool and
/// the error is handed on.
pub open spec fn prepares_on<C: Connection>(
    connection: C,
    query: &str,
    pool: Seq<C>,
    outcome: Result<Statement<C>, Error>,
    pool_after: Seq<C>,
) -> bool {
    exists|prepared: Result<C::Statement, Error>, after: C| #[trigger]
        connection.prepares(query, prepared, after) && after.ident()@ == connection.ident()@
            && match prepared {
            Ok(statement) => {
                &&& outcome matches Ok(wrapped) && wrapped.connection() == Some(after)
                    && wrapped.inner() == statement
                &&& pool_after == pool
            },
            Err(e) => {
                &&& outcome matches Err(passed) && passed == e
                &&& pool_after == with_returned(pool, after)
            },
        }
}

/// What beginning a transaction on `connection` makes of the pool `pool`:
/// the connection is asked to begin and keeps its id. A transaction that it
/// answers with comes back wrapped, active and owning the connection, and
/// the pool is left alone; on an error the connection goes back to the pool
/// and the error is handed on.
pub open spec fn begins_on<C: Connection>(
    connection: C,
    pool: Seq<C>,
    outcome: Result<Transaction<C>, Error>,
    pool_after: Seq<C>,
) -> bool {
    exists|begun: Result<C::Transaction, Error>, after: C| #[trigger]
        connection.begins(begun, after) && after.ident()@ == connection.ident()@ && match begun {
            Ok(transaction) => {
                &&& outcome matches Ok(wrapped) && wrapped.connection() == Some(after)
                    && wrapped.inner() == transaction && wrapped.state() == TxState::Active
                &&& pool_after == pool
            },
            Err(e) => {
                &&& outcome matches Err(passed) && passed == e
                &&& pool_after == with_returned(pool, after)
            },
        }
}

/// A database named by driver and url, with the connections at rest for it.
pub struct Database<C: Connection> {
    name: String,
    url: String,
    connection_pool: ConnectionPool<C>,
}

impl<C: Connection> Database<C> {
    /// The name of the driver.
    pub closed spec fn name(&self) -> Seq<char> {
        self.name@
    }

    /// The url handed to the driver when a connection is opened.
    pub closed spec fn url(&self) -> Seq<char> {
        self.url@
    }

    /// The connections at rest, oldest first.
    pub closed spec fn pool(&self) -> Seq<C> {
        self.connection_pool@
    }

    /// The pool is well formed.
    pub closed spec fn wf(&self) -> bool {
        self.connection_pool.wf()
    }

    /// A handle with an empty pool.
    pub fn new(name: &str, url: &str) -> (database: Self)
        ensures
            database.wf(),
            database.name() == name@,
            database.url() == url@,
            database.pool() == Seq::<C>::empty(),
    {
        Database { name: name.to_owned(), url: url.to_owned(), connection_pool: ConnectionPool::new() }
    }

    /// The number of connections at rest.
    pub fn idle(&self) -> (n: usize)
        requires
            self.wf(),
        ensures
            n == self.pool().len(),
    {
        self.connection_pool.len()
    }

    /// Takes a connection out of the pool that says it is valid, if there is
    /// one. Those that are asked and are not valid are dropped.
    pub fn checkout(&mut self) -> (picked: Option<C>)
        requires
            old(self).wf(),
        ensures
            final(self).wf(),
            final(self).name() == old(self).name(),
            final(self).url() == old(self).url(),
            checkout_leaves(old(self).pool(), picked, final(self).pool()),
    {
        self.connection_pool.checkout()
    }

    /// The name of the driver.
    pub fn driver_name(&self) -> (name: &str)
        ensures
            name@ == self.name(),
    {
        self.name.as_str()
    }

    /// The url handed to the driver when a connection is opened.
    pub fn location(&self) -> (url: &str)
        ensures
            url@ == self.url(),
    {
        self.url.as_str()
    }

    /// Puts a connection to rest in the pool, under its id.
    pub fn give_back(&mut self, connection: C)
        requires
            old(self).wf(),
        ensures
            final(self).wf(),
            final(self).name() == old(self).name(),
            final(self).url() == old(self).url(),
            final(self).pool() == with_returned(old(self).pool(), connection),
    {
        self.connection_pool.give_back(connection)
    }

    /// Ends a statement and takes back the connection it owns, if any.
    pub fn close_statement(&mut self, statement: Statement<C>)
        requires
            old(self).wf(),
        ensures
            final(self).wf(),
            final(self).name() == old(self).name(),
            final(self).url() == old(self).url(),
            final(self).pool() == match statement.connection() {
                Some(connection) => with_returned(old(self).pool(), connection),
                None => old(self).pool(),
            },
    {
        statement.close(&mut self.connection_pool)
    }

    /// Ends a transaction and takes back the connection it owns, if any. An
    /// active transaction is rolled back first; the driver's answer to that
    /// is handed out.
    pub fn close_transaction(&mut self, transaction: Transaction<C>) -> (rolled_back: Option<
        Result<(), Error>,
    >)
        requires
            old(self).wf(),
        ensures
            final(self).wf(),
            final(self).name() == old(self).name(),
            final(self).url() == old(self).url(),
            transaction.closes_with(rolled_back),
            final(self).pool() == match transaction.connection() {
                Some(connection) => with_returned(old(self).pool(), connection),
                None => old(self).pool(),
            },
    {
        transaction.close(&mut self.connection_pool)
    }

    /// Gets a connection to work on: one from the pool that says it is
    /// valid, or, when the pool has none, a new one from the driver.
    ///
    /// The driver is looked up and asked only when the pool handed out
    /// nothing, and the pool is empty by then. It is asked to open the url
    /// of this database, and its answer is handed out. If the driver is no
    /// longer registered, the call fails with `UnknownDriver`.
    pub fn select_one_connection<D: Driver<Connection = C>>(
        &mut self,
        drivers: &mut DataSource<D>,
    ) -> (outcome: Result<C, Error>)
        requires
            old(self).wf(),
            old(drivers).wf(),
        ensures
            final(self).wf(),
            final(drivers).wf(),
            final(self).name() == old(self).name(),
            final(self).url() == old(self).url(),
            final(drivers)@.dom() == old(drivers)@.dom(),
            acquires(
                old(self).pool(),
                old(self).name(),
                old(self).url(),
                old(drivers)@,
                outcome,
                final(self).pool(),
                final(drivers)@,
            ),
    {
        let picked = self.connection_pool.checkout();
        let ghost took = picked;
        match picked {
            Some(connection) => {
                assert(checkout_leaves(old(self).pool(), took, self.pool()));
                Ok(connection)
            },
            None => {
                let opened = match drivers.driver_or_unknown(self.name.as_str()) {
                    Ok(driver) => {
                        let text = self.url.as_str();
                        let opened = driver.open(text);
                        assert(old(drivers)@[self.name()].opens(text, opened, *driver));
                        opened
                    },
                    Err(e) => Err(e),
                };
                assert(checkout_leaves(old(self).pool(), took, self.pool()));
                opened
            },
        }
    }

    /// Wraps what the driver made of a prepare on `connection`: a statement
    /// that owns the connection, or the driver's error, with the connection
    /// back in the pool.
    pub fn own_statement(&mut self, connection: C, prepared: Result<C::Statement, Error>) -> (outcome:
        Result<Statement<C>, Error>)
        requires
            old(self).wf(),
        ensures
            final(self).wf(),
            final(self).name() == old(self).name(),
            final(self).url() == old(self).url(),
            match prepared {
                Ok(statement) => {
                    &&& outcome matches Ok(wrapped) && wrapped.connection() == Some(connection)
                        && wrapped.inner() == statement
                    &&& final(self).pool() == old(self).pool()
                },
                Err(e) => {
                    &&& outcome matches Err(passed) && passed == e
                    &&& final(self).pool() == with_returned(old(self).pool(), connection)
                },
            },
    {
        match prepared {
            Ok(statement) => Ok(Statement::new(Some(connection), statement)),
            Err(e) => {
                self.connection_pool.give_back(connection);
                Err(e)
            },
        }
    }

    /// Wraps what the driver made of a begin on `connection`: an active
    /// transaction that owns the connection, or the driver's error, with the
    /// connection back in the pool.
    pub fn own_transaction(&mut self, connection: C, begun: Result<C::Transaction, Error>) -> (outcome:
        Result<Transaction<C>, Error>)
        requires
            old(self).wf(),
        ensures
            final(self).wf(),
            final(self).name() == old(self).name(),
            final(self).url() == old(self).url(),
            match begun {
                Ok(transaction) => {
                    &&& outcome matches Ok(wrapped) && wrapped.connection() == Some(connection)
                        && wrapped.inner() == transaction && wrapped.state() == TxState::Active
                    &&& final(self).pool() == old(self).pool()
                },
                Err(e) => {
                    &&& outcome matches Err(passed) && passed == e
                    &&& final(self).pool() == with_returned(old(self).pool(), connection)
                },
            },
    {
        match begun {
            Ok(transaction) => Ok(Transaction::new(Some(connection), transaction)),
            Err(e) => {
                self.connection_pool.give_back(connection);
                Err(e)
            },
        }
    }

    /// Prepares `query` on a connection of this database.
    ///
    /// A connection is got first. When none could be had, that error is
    /// handed on and the pool holds what the checkout left. Otherwise the
    /// connection is asked to prepare the query: a statement that comes back
    /// owns the connection, and when the driver refused the query the
    /// connection is back in the pool.
    pub fn prepare<D: Driver<Connection = C>>(&mut self, drivers: &mut DataSource<D>, query: &str) -> (outcome:
        Result<Statement<C>, Error>)
        requires
            old(self).wf(),
            old(drivers).wf(),
        ensures
            final(self).wf(),
            final(drivers).wf(),
            final(self).name() == old(self).name(),
            final(self).url() == old(self).url(),
            final(drivers)@.dom() == old(drivers)@.dom(),
            exists|acquired: Result<C, Error>, rest: Seq<C>| #[trigger]
                acquires(
                    old(self).pool(),
                    old(self).name(),
                    old(self).url(),
                    old(drivers)@,
                    acquired,
                    rest,
                    final(drivers)@,
                ) && match acquired {
                    Ok(connection) => prepares_on(connection, query, rest, outcome, final(self).pool()),
                    Err(e) => (outcome matches Err(passed) && passed == e) && final(self).pool()
                        == rest,
                },
    {
        let acquired = self.select_one_connection(drivers);
        let ghost got = acquired;
        let ghost rest = self.pool();
        match acquired {
            Ok(connection) => {
                let mut connection = connection;
                let prepared = connection.prepare(query);
                let ghost answered = prepared;
                let ghost after = connection;
                let outcome = self.own_statement(connection, prepared);
                proof {
                    assert(got->Ok_0.prepares(query, answered, after));
                    assert(prepares_on(got->Ok_0, query, rest, outcome, self.pool()));
                }
                outcome
            },
            Err(e) => Err(e),
        }
    }

    /// Starts a transaction on a connection of this database.
    ///
    /// A connection is got first. When none could be had, that error is
    /// handed on and the pool holds what the checkout left. Otherwise the
    /// connection is asked to begin: a transaction that comes back is active
    /// and owns the connection, and when the driver refused to begin the
    /// connection is back in the pool.
    pub fn begin<D: Driver<Connection = C>>(&mut self, drivers: &mut DataSource<D>) -> (outcome:
        Result<Transaction<C>, Error>)
        requires
            old(self).wf(),
            old(drivers).wf(),
        ensures
            final(self).wf(),
            final(drivers).wf(),
            final(self).name() == old(self).name(),
            final(self).url() == old(self).url(),
            final(drivers)@.dom() == old(drivers)@.dom(),
            exists|acquired: Result<C, Error>, rest: Seq<C>| #[trigger]
                acquires(
                    old(self).pool(),
                    old(self).name(),
                    old(self).url(),
                    old(drivers)@,
                    acquired,
                    rest,
                    final(drivers)@,
                ) && match acquired {
                    Ok(connection) => begins_on(connection, rest, outcome, final(self).pool()),
                    Err(e) => (outcome matches Err(passed) && passed == e) && final(self).pool()
                        == rest,
                },
    {
        let acquired = self.select_one_connection(drivers);
        let ghost got = acquired;
        let ghost rest = self.pool();
        match acquired {
            Ok(connection) => {
                let mut connection = connection;
                let begun = connection.begin();
                let ghost answered = begun;
                let ghost after = connection;
                let outcome = self.own_transaction(connection, begun);
                proof {
                    assert(got->Ok_0.begins(answered, after));
                    assert(begins_on(got->Ok_0, rest, outcome, self.pool()));
                }
                outcome
            },
            Err(e) => Err(e),
        }
    }
}

} // verus!
