//! The transaction a caller holds.

use vstd::prelude::*;
use crate::driver;
use crate::driver::Connection;
use crate::error::Error;
use crate::pool::{with_returned, ConnectionPool};
use crate::statement::Statement;

verus! {

/// Where a transaction stands.
#[derive(Debug, Clone, Copy, PartialEq, Eq, Structural)]
pub enum TxState {
    /// Begun, and neither committed nor rolled back yet.
    Active,
    /// `commit` was called.
    Committed,
    /// `rollback` was called, or the transaction was closed while active.
    RolledBack,
}

/// The state after `commit` was called in `state`.
pub open spec fn after_commit(state: TxState) -> TxState {
    match state {
        TxState::Active => TxState::Committed,
        finished => finished,
    }
}

/// The state after `rollback` was called in `state`.
pub open spec fn after_rollback(state: TxState) -> TxState {
    match state {
        TxState::Active => TxState::RolledBack,
        finished => finished,
    }
}

/// A transaction leaves the active state once: after a commit or a
/// rollback it is finished, and no later commit or rollback changes where
/// it stands.
pub proof fn lemma_transitions_are_one_shot(state: TxState)
    ensures
        after_commit(state) != TxState::Active,
        after_rollback(state) != TxState::Active,
        after_commit(after_commit(state)) == after_commit(state),
        after_rollback(after_commit(state)) == after_commit(state),
        after_commit(after_rollback(state)) == after_rollback(state),
        after_rollback(after_rollback(state)) == after_rollback(state),
{
}

impl TxState {
    /// Whether commit and rollback are still to come.
    pub fn is_active(self) -> (active: bool)
        ensures
            active == (self == TxState::Active),
    {
        match self {
            TxState::Active => true,
            _ => false,
        }
    }

    /// The state after `commit` was called in this one.
    pub fn committed(self) -> (next: TxState)
        ensures
            next == after_commit(self),
    {
        match self {
            TxState::Active => TxState::Committed,
            finished => finished,
        }
    }

    /// The state after `rollback` was called in this one.
    pub fn rolled_back(self) -> (next: TxState)
        ensures
            next == after_rollback(self),
    {
        match self {
            TxState::Active => TxState::RolledBack,
            finished => finished,
        }
    }
}

/// A driver's transaction, the connection it runs on, and where it stands.
pub struct Transaction<C: Connection> {
    inner: C::Transaction,
    conn: Option<C>,
    state: TxState,
}

impl<C: Connection> Transaction<C> {
    /// The connection this transaction owns, if any.
    pub closed spec fn connection(&self) -> Option<C> {
        self.conn
    }

    /// Where the transaction stands.
    pub closed spec fn state(&self) -> TxState {
        self.state
    }

    /// Wraps a transaction that a driver has just begun.
    pub fn new(conn: Option<C>, inner: C::Transaction) -> (tx: Self)
        ensures
            tx.connection() == conn,
            tx.inner() == inner,
            tx.state() == TxState::Active,
    {
        Transaction { inner, conn, state: TxState::Active }
    }

    /// Where the transaction stands.
    pub fn status(&self) -> (state: TxState)
        ensures
            state == self.state(),
    {
        self.state
    }

    /// Whether closing this transaction returns a connection to the pool.
    pub fn has_connection(&self) -> (owns: bool)
        ensures
            owns == self.connection() is Some,
    {
        self.conn.is_some()
    }

    /// Prepares a statement inside the transaction. The query goes to the
    /// driver's transaction as it is. What the driver prepared comes back
    /// wrapped as a statement that owns no connection, so that closing it
    /// returns nothing to the pool; the driver's error comes back as it is.
    pub fn prepare(&mut self, query: &str) -> (outcome: Result<Statement<C>, Error>)
        ensures
            final(self).connection() == old(self).connection(),
            final(self).state() == old(self).state(),
            outcome matches Ok(statement) ==> !statement.owns_connection(),
            exists|prepared: Result<C::Statement, Error>|
                #[trigger] driver::Transaction::prepares(
                    &old(self).inner(),
                    query,
                    prepared,
                    final(self).inner(),
                ) && match prepared {
                    Ok(statement) => outcome matches Ok(wrapped) && wrapped.connection() is None
                        && wrapped.inner() == statement,
                    Err(e) => outcome matches Err(passed) && passed == e,
                },
    {
        let prepared = driver::Transaction::prepare(&mut self.inner, query);
        assert(driver::Transaction::prepares(&old(self).inner(), query, prepared, self.inner()));
        Statement::borrowing(prepared)
    }

    /// Asks the driver to commit and hands its answer out. An active
    /// transaction is committed from then on, whatever the driver answered.
    pub fn commit(&mut self) -> (outcome: Result<(), Error>)
        ensures
            driver::Transaction::commits(&old(self).inner(), outcome, final(self).inner()),
            final(self).connection() == old(self).connection(),
            final(self).state() == after_commit(old(self).state()),
    {
        let outcome = driver::Transaction::commit(&mut self.inner);
        self.note_commit();
        outcome
    }

    /// Asks the driver to roll back and hands its answer out. An active
    /// transaction is rolled back from then on, whatever the driver
    /// answered.
    pub fn rollback(&mut self) -> (outcome: Result<(), Error>)
        ensures
            driver::Transaction::rolls_back(&old(self).inner(), outcome, final(self).inner()),
            final(self).connection() == old(self).connection(),
            final(self).state() == after_rollback(old(self).state()),
    {
        let outcome = driver::Transaction::rollback(&mut self.inner);
        self.note_rollback();
        outcome
    }

    /// Ends the transaction. While it is still active the driver is asked to
    /// roll back, and what it answered is handed out; after that the
    /// connection, if one is owned, goes back to `pool`.
    pub fn close(self, pool: &mut ConnectionPool<C>) -> (rolled_back: Option<Result<(), Error>>)
        requires
            old(pool).wf(),
        ensures
            final(pool).wf(),
            self.closes_with(rolled_back),
            final(pool)@ == match self.connection() {
                Some(connection) => with_returned(old(pool)@, connection),
                None => old(pool)@,
            },
    {
        let Transaction { inner, conn, state } = self;
        let mut inner = inner;
        let rolled_back = if state.is_active() {
            let outcome = driver::Transaction::rollback(&mut inner);
            assert(driver::Transaction::rolls_back(&self.inner(), outcome, inner));
            Some(outcome)
        } else {
            None
        };
        {
            let _finished = inner;
        }
        match conn {
            Some(connection) => pool.give_back(connection),
            None => {},
        }
        rolled_back
    }

    /// The driver's transaction.
    pub closed spec fn inner(&self) -> C::Transaction {
        self.inner
    }

    /// Whether closing this transaction can hand out `rolled_back`: an
    /// active transaction asks the driver to roll back and hands out what
    /// it answered; a finished one asks nothing and hands out nothing.
    pub open spec fn closes_with(&self, rolled_back: Option<Result<(), Error>>) -> bool {
        match rolled_back {
            Some(outcome) => self.state() == TxState::Active && exists|after: C::Transaction|
             #[trigger]
                driver::Transaction::rolls_back(&self.inner(), outcome, after),
            None => self.state() != TxState::Active,
        }
    }

    /// The driver's transaction, to ask it something. The connection and
    /// the state stay as they are.
    pub fn inner_mut(&mut self) -> (inner: &mut C::Transaction)
        ensures
            *inner == old(self).inner(),
            final(self).inner() == *final(inner),
            final(self).connection() == old(self).connection(),
            final(self).state() == old(self).state(),
    {
        &mut self.inner
    }

    /// Notes that the driver was asked to commit: an active transaction is
    /// committed from now on.
    pub fn note_commit(&mut self)
        ensures
            final(self).state() == after_commit(old(self).state()),
            final(self).connection() == old(self).connection(),
            final(self).inner() == old(self).inner(),
    {
        self.state = self.state.committed();
    }

    /// Notes that the driver was asked to roll back: an active transaction
    /// is rolled back from now on.
    pub fn note_rollback(&mut self)
        ensures
            final(self).state() == after_rollback(old(self).state()),
            final(self).connection() == old(self).connection(),
            final(self).inner() == old(self).inner(),
    {
        self.state = self.state.rolled_back();
    }
}

} // verus!
