//! The driver that funnels every call through one worker.
//!
//! The worker owns the connections, statements, transactions and cursors,
//! each in a table keyed by id. Callers hold adapters that know an id and
//! nothing else; every operation on an adapter is a [`Task`] for the worker,
//! and the worker answers each task with a [`Reply`].

use vstd::prelude::*;
use crate::driver::{Connection, Driver, Rows, Statement, Transaction};
use crate::error::{Error, ErrorView};
use crate::sqlite3::sqlite3_rs::random_id;
use crate::table::Table;
use crate::waker::Waker;
use crate::value::{
    args_view, Arg, ColumnMetaData, ColumnMetaDataView, ColumnType, ExecuteResult, Placeholder,
    PlaceholderView, Value, ValueView,
};

verus! {

/// One request to the worker.
pub enum Task {
    /// Prepare a statement: connection id, query.
    Prepare(String, String),
    /// Begin a transaction: connection id.
    Begin(String),
    /// Open a connection: url.
    Open(String),
    /// Run a statement that returns no rows: statement id, arguments.
    Execute(String, Vec<Arg>),
    /// Run a statement that may return rows: statement id, arguments.
    Query(String, Vec<Arg>),
    /// Describe the columns: cursor id.
    Columns(String),
    /// Step to the next row: cursor id.
    RowsNext(String),
    /// Read a column of the current row: cursor id, column, kind.
    RowsGet(String, Placeholder, ColumnType),
    /// Prepare a statement inside a transaction: transaction id, query.
    TxPrepare(String, String),
    /// Commit: transaction id.
    Commit(String),
    /// Roll back: transaction id.
    Rollback(String),
    /// Forget a connection.
    CloseConnection(String),
    /// Forget a transaction.
    CloseTx(String),
    /// Forget a statement.
    CloseStmt(String),
    /// Forget a cursor.
    CloseRows(String),
}

/// The mathematical value of a [`Task`].
pub enum TaskView {
    Prepare(Seq<char>, Seq<char>),
    Begin(Seq<char>),
    Open(Seq<char>),
    Execute(Seq<char>, Seq<(PlaceholderView, ValueView)>),
    Query(Seq<char>, Seq<(PlaceholderView, ValueView)>),
    Columns(Seq<char>),
    RowsNext(Seq<char>),
    RowsGet(Seq<char>, PlaceholderView, ColumnType),
    TxPrepare(Seq<char>, Seq<char>),
    Commit(Seq<char>),
    Rollback(Seq<char>),
    CloseConnection(Seq<char>),
    CloseTx(Seq<char>),
    CloseStmt(Seq<char>),
    CloseRows(Seq<char>),
}

impl View for Task {
    type V = TaskView;

    open spec fn view(&self) -> TaskView {
        match *self {
            Task::Prepare(id, query) => TaskView::Prepare(id@, query@),
            Task::Begin(id) => TaskView::Begin(id@),
            Task::Open(url) => TaskView::Open(url@),
            Task::Execute(id, args) => TaskView::Execute(id@, args_view(args@)),
            Task::Query(id, args) => TaskView::Query(id@, args_view(args@)),
            Task::Columns(id) => TaskView::Columns(id@),
            Task::RowsNext(id) => TaskView::RowsNext(id@),
            Task::RowsGet(id, pos, column_type) => TaskView::RowsGet(id@, pos@, column_type),
            Task::TxPrepare(id, query) => TaskView::TxPrepare(id@, query@),
            Task::Commit(id) => TaskView::Commit(id@),
            Task::Rollback(id) => TaskView::Rollback(id@),
            Task::CloseConnection(id) => TaskView::CloseConnection(id@),
            Task::CloseTx(id) => TaskView::CloseTx(id@),
            Task::CloseStmt(id) => TaskView::CloseStmt(id@),
            Task::CloseRows(id) => TaskView::CloseRows(id@),
        }
    }
}

/// The caller's end of the driver: asks the worker to open connections.
pub struct AsyncDriver {}

/// The caller's end of a connection that the worker holds.
pub struct AsyncConnection {
    id: String,
}

/// The caller's end of a transaction that the worker holds.
pub struct AsyncTransaction {
    id: String,
}

/// The caller's end of a statement that the worker holds, with the number
/// of parameter slots learned when it was prepared.
pub struct AsyncStatement {
    id: String,
    inputs: Option<u32>,
}

/// The caller's end of a cursor that the worker holds.
pub struct AsyncRows {
    id: String,
}

impl AsyncDriver {
    /// The task that opens a connection to `name`.
    pub fn open(&mut self, name: &str) -> (task: Task)
        ensures
            task@ == TaskView::Open(name@),
    {
        Task::Open(name.to_owned())
    }
}

impl AsyncConnection {
    /// The id under which the worker holds the connection.
    pub closed spec fn ident(&self) -> Seq<char> {
        self.id@
    }

    /// The adapter for the connection held under `id`.
    pub fn new(id: String) -> (adapter: Self)
        ensures
            adapter.ident() == id@,
    {
        AsyncConnection { id }
    }

    /// The task that begins a transaction on this connection.
    pub fn begin(&mut self) -> (task: Task)
        ensures
            final(self).ident() == old(self).ident(),
            task@ == TaskView::Begin(old(self).ident()),
    {
        Task::Begin(self.id.clone())
    }

    /// The id under which the worker holds the connection.
    pub fn id(&self) -> (id: &str)
        ensures
            id@ == self.ident(),
    {
        self.id.as_str()
    }

    /// A connection that the worker holds counts as valid.
    pub fn is_valid(&self) -> (valid: bool)
        ensures
            valid,
    {
        true
    }

    /// The task that prepares `query` on this connection.
    pub fn prepare(&mut self, query: &str) -> (task: Task)
        ensures
            final(self).ident() == old(self).ident(),
            task@ == TaskView::Prepare(old(self).ident(), query@),
    {
        Task::Prepare(self.id.clone(), query.to_owned())
    }

    /// The task to send when the adapter goes away.
    pub fn close(self) -> (task: Task)
        ensures
            task@ == TaskView::CloseConnection(self.ident()),
    {
        Task::CloseConnection(self.id)
    }
}

impl AsyncTransaction {
    /// The id under which the worker holds the transaction.
    pub closed spec fn ident(&self) -> Seq<char> {
        self.id@
    }

    /// The adapter for the transaction held under `id`.
    pub fn new(id: String) -> (adapter: Self)
        ensures
            adapter.ident() == id@,
    {
        AsyncTransaction { id }
    }

    /// The id under which the worker holds the transaction.
    pub fn id(&self) -> (id: &str)
        ensures
            id@ == self.ident(),
    {
        self.id.as_str()
    }

    /// The task that commits this transaction.
    pub fn commit(&mut self) -> (task: Task)
        ensures
            final(self).ident() == old(self).ident(),
            task@ == TaskView::Commit(old(self).ident()),
    {
        Task::Commit(self.id.clone())
    }

    /// The task that prepares `query` inside this transaction.
    pub fn prepare(&mut self, query: &str) -> (task: Task)
        ensures
            final(self).ident() == old(self).ident(),
            task@ == TaskView::TxPrepare(old(self).ident(), query@),
    {
        Task::TxPrepare(self.id.clone(), query.to_owned())
    }

    /// The task that rolls this transaction back.
    pub fn rollback(&mut self) -> (task: Task)
        ensures
            final(self).ident() == old(self).ident(),
            task@ == TaskView::Rollback(old(self).ident()),
    {
        Task::Rollback(self.id.clone())
    }

    /// The task to send when the adapter goes away.
    pub fn close(self) -> (task: Task)
        ensures
            task@ == TaskView::CloseTx(self.ident()),
    {
        Task::CloseTx(self.id)
    }
}

impl AsyncStatement {
    /// The id under which the worker holds the statement.
    pub closed spec fn ident(&self) -> Seq<char> {
        self.id@
    }

    /// The number of parameter slots, as learned at prepare time.
    pub closed spec fn inputs(&self) -> Option<u32> {
        self.inputs
    }

    /// The adapter for the statement held under `id`.
    pub fn new(id: String, inputs: Option<u32>) -> (adapter: Self)
        ensures
            adapter.ident() == id@,
            adapter.inputs() == inputs,
    {
        AsyncStatement { id, inputs }
    }

    /// The id under which the worker holds the statement.
    pub fn id(&self) -> (id: &str)
        ensures
            id@ == self.ident(),
    {
        self.id.as_str()
    }

    /// The task that runs this statement with `args`, expecting no rows.
    pub fn execute(&mut self, args: Vec<Arg>) -> (task: Task)
        ensures
            final(self).ident() == old(self).ident(),
            final(self).inputs() == old(self).inputs(),
            task@ == TaskView::Execute(old(self).ident(), args_view(args@)),
    {
        Task::Execute(self.id.clone(), args)
    }

    /// The number of parameter slots. The worker is not asked.
    pub fn num_input(&self) -> (inputs: Option<u32>)
        ensures
            inputs == self.inputs(),
    {
        self.inputs
    }

    /// The task that runs this statement with `args` for its rows.
    pub fn query(&mut self, args: Vec<Arg>) -> (task: Task)
        ensures
            final(self).ident() == old(self).ident(),
            final(self).inputs() == old(self).inputs(),
            task@ == TaskView::Query(old(self).ident(), args_view(args@)),
    {
        Task::Query(self.id.clone(), args)
    }

    /// The task to send when the adapter goes away.
    pub fn close(self) -> (task: Task)
        ensures
            task@ == TaskView::CloseStmt(self.ident()),
    {
        Task::CloseStmt(self.id)
    }
}

impl AsyncRows {
    /// The id under which the worker holds the cursor.
    pub closed spec fn ident(&self) -> Seq<char> {
        self.id@
    }

    /// The adapter for the cursor held under `id`.
    pub fn new(id: String) -> (adapter: Self)
        ensures
            adapter.ident() == id@,
    {
        AsyncRows { id }
    }

    /// The id under which the worker holds the cursor.
    pub fn id(&self) -> (id: &str)
        ensures
            id@ == self.ident(),
    {
        self.id.as_str()
    }

    /// The task that describes the columns.
    pub fn colunms(&mut self) -> (task: Task)
        ensures
            final(self).ident() == old(self).ident(),
            task@ == TaskView::Columns(old(self).ident()),
    {
        Task::Columns(self.id.clone())
    }

    /// The task that reads a column of the current row.
    pub fn get(&mut self, pos: Placeholder, column_type: ColumnType) -> (task: Task)
        ensures
            final(self).ident() == old(self).ident(),
            task@ == TaskView::RowsGet(old(self).ident(), pos@, column_type),
    {
        Task::RowsGet(self.id.clone(), pos, column_type)
    }

    /// The task that steps to the next row.
    pub fn next(&mut self) -> (task: Task)
        ensures
            final(self).ident() == old(self).ident(),
            task@ == TaskView::RowsNext(old(self).ident()),
    {
        Task::RowsNext(self.id.clone())
    }

    /// The task to send when the adapter goes away.
    pub fn close(self) -> (task: Task)
        ensures
            task@ == TaskView::CloseRows(self.ident()),
    {
        Task::CloseRows(self.id)
    }
}

/// What the worker answers to a task.
pub enum Reply {
    /// A connection was opened.
    Connection(AsyncConnection),
    /// A statement was prepared.
    Statement(AsyncStatement),
    /// A transaction was begun.
    Transaction(AsyncTransaction),
    /// A query was run.
    Rows(AsyncRows),
    /// A statement was executed.
    Executed(ExecuteResult),
    /// The columns of a cursor.
    Columns(Vec<ColumnMetaData>),
    /// Whether a step found a row.
    Stepped(bool),
    /// The value of a column.
    Fetched(Value),
    /// A commit or rollback went through.
    Finished,
    /// The task failed.
    Failed(Error),
    /// A resource was forgotten; nobody waits for this.
    Closed,
}

/// The connection type of a driver.
pub type ConnectionOf<D> = <D as Driver>::Connection;

/// The statement type of a driver.
pub type StatementOf<D> = <<D as Driver>::Connection as Connection>::Statement;

/// The transaction type of a driver.
pub type TransactionOf<D> = <<D as Driver>::Connection as Connection>::Transaction;

/// The cursor type of a driver.
pub type RowsOf<D> = <<<D as Driver>::Connection as Connection>::Statement as Statement>::Rows;

/// The worker: a driver that is used from one place only, and every
/// resource it has handed out, by id.
pub struct Worker<D: Driver> {
    driver: D,
    cnns: Table<ConnectionOf<D>>,
    stmts: Table<StatementOf<D>>,
    txs: Table<TransactionOf<D>>,
    results: Table<RowsOf<D>>,
}

/// Settles a task after the attempt to hand it to the worker. A task that
/// was handed over is answered by the worker; for one that was not, the
/// waiting caller is told at once that the channel is closed.
pub fn send_task<Output>(sent: bool, waker: &mut Waker<Result<Output, Error>>)
    requires
        !sent ==> old(waker).output is None,
    ensures
        sent ==> *final(waker) == *old(waker),
        !sent ==> final(waker).waker is None && (final(waker).output matches Some(Err(e)) && e@
            == ErrorView::ChannelClosed),
{
    if !sent {
        waker.ready(Err(Error::ChannelClosed));
    }
}

/// Looks `id` up in `map`. A miss is the error that the waiting caller gets.
pub fn fetch_object<'a, Obj>(map: &'a mut Table<Obj>, id: &str) -> (found: Result<&'a mut Obj, Error>)
    requires
        old(map).wf(),
    ensures
        final(map).wf(),
        final(map).as_map().dom() == old(map).as_map().dom(),
        match found {
            Ok(object) => {
                &&& old(map).as_map().contains_key(id@)
                &&& *object == old(map).as_map()[id@]
                &&& final(map).as_map() == old(map).as_map().insert(id@, *final(object))
            },
            Err(e) => {
                &&& !old(map).as_map().contains_key(id@)
                &&& e@ == ErrorView::ResourceNotFound(id@)
                &&& final(map).as_map() == old(map).as_map()
            },
        },
{
    match map.get_mut(id) {
        Some(object) => Ok(object),
        None => Err(Error::ResourceNotFound(id.to_owned())),
    }
}

/// `after` is `before` with something put under `id`: a new entry, or a
/// new value for the entry that was there.
pub open spec fn put<V>(before: Map<Seq<char>, V>, after: Map<Seq<char>, V>, id: Seq<char>) -> bool {
    after.contains_key(id) && after == before.insert(id, after[id])
}

impl<D: Driver> Worker<D> {
    /// The driver that the worker opens connections with.
    pub closed spec fn driver(&self) -> D {
        self.driver
    }

    /// The connections held, by id.
    pub closed spec fn connections(&self) -> Map<Seq<char>, ConnectionOf<D>> {
        self.cnns.as_map()
    }

    /// The statements held, by id.
    pub closed spec fn statements(&self) -> Map<Seq<char>, StatementOf<D>> {
        self.stmts.as_map()
    }

    /// The transactions held, by id.
    pub closed spec fn transactions(&self) -> Map<Seq<char>, TransactionOf<D>> {
        self.txs.as_map()
    }

    /// The cursors held, by id.
    pub closed spec fn resultsets(&self) -> Map<Seq<char>, RowsOf<D>> {
        self.results.as_map()
    }

    /// Each table holds each id once.
    pub closed spec fn wf(&self) -> bool {
        &&& self.cnns.wf()
        &&& self.stmts.wf()
        &&& self.txs.wf()
        &&& self.results.wf()
    }

    /// A worker around `driver` that holds nothing yet.
    pub fn new(driver: D) -> (worker: Self)
        ensures
            worker.wf(),
            worker.driver() == driver,
            worker.connections() == Map::<Seq<char>, ConnectionOf<D>>::empty(),
            worker.statements() == Map::<Seq<char>, StatementOf<D>>::empty(),
            worker.transactions() == Map::<Seq<char>, TransactionOf<D>>::empty(),
            worker.resultsets() == Map::<Seq<char>, RowsOf<D>>::empty(),
    {
        let worker = Worker {
            driver,
            cnns: Table::new(),
            stmts: Table::new(),
            txs: Table::new(),
            results: Table::new(),
        };
        assert(worker.connections() =~= Map::<Seq<char>, ConnectionOf<D>>::empty());
        assert(worker.statements() =~= Map::<Seq<char>, StatementOf<D>>::empty());
        assert(worker.transactions() =~= Map::<Seq<char>, TransactionOf<D>>::empty());
        assert(worker.resultsets() =~= Map::<Seq<char>, RowsOf<D>>::empty());
        worker
    }

    /// Takes in what the driver made of an open: the connection is held
    /// under the id the driver gave it, and the caller gets the adapter.
    pub fn admit_connection(&mut self, opened: Result<ConnectionOf<D>, Error>) -> (reply: Reply)
        requires
            old(self).wf(),
        ensures
            final(self).wf(),
            final(self).driver() == old(self).driver(),
            final(self).statements() == old(self).statements(),
            final(self).transactions() == old(self).transactions(),
            final(self).resultsets() == old(self).resultsets(),
            match opened {
                Ok(connection) => {
                    &&& reply matches Reply::Connection(adapter) && adapter.ident()
                        == connection.ident()@
                    &&& final(self).connections() == old(self).connections().insert(
                        connection.ident()@,
                        connection,
                    )
                },
                Err(e) => {
                    &&& reply matches Reply::Failed(passed) && passed == e
                    &&& final(self).connections() == old(self).connections()
                },
            },
    {
        match opened {
            Ok(connection) => {
                let id = connection.id().to_owned();
                let adapter = AsyncConnection::new(id.clone());
                let _ = self.cnns.insert(id, connection);
                Reply::Connection(adapter)
            },
            Err(e) => Reply::Failed(e),
        }
    }

    /// Takes in what the driver made of a prepare: the statement is held
    /// under `id`, and the caller gets the adapter, which knows the number
    /// of parameter slots.
    pub fn admit_statement(&mut self, id: String, prepared: Result<StatementOf<D>, Error>) -> (reply:
        Reply)
        requires
            old(self).wf(),
        ensures
            final(self).wf(),
            final(self).driver() == old(self).driver(),
            final(self).connections() == old(self).connections(),
            final(self).transactions() == old(self).transactions(),
            final(self).resultsets() == old(self).resultsets(),
            match prepared {
                Ok(statement) => {
                    &&& reply matches Reply::Statement(adapter) && adapter.ident() == id@
                        && adapter.inputs() == statement.slots()
                    &&& final(self).statements() == old(self).statements().insert(id@, statement)
                },
                Err(e) => {
                    &&& reply matches Reply::Failed(passed) && passed == e
                    &&& final(self).statements() == old(self).statements()
                },
            },
    {
        match prepared {
            Ok(statement) => {
                let inputs = statement.num_input();
                let adapter = AsyncStatement::new(id.clone(), inputs);
                let _ = self.stmts.insert(id, statement);
                Reply::Statement(adapter)
            },
            Err(e) => Reply::Failed(e),
        }
    }

    /// Takes in what the driver made of a begin: the transaction is held
    /// under `id`, and the caller gets the adapter.
    pub fn admit_transaction(&mut self, id: String, begun: Result<TransactionOf<D>, Error>) -> (reply:
        Reply)
        requires
            old(self).wf(),
        ensures
            final(self).wf(),
            final(self).driver() == old(self).driver(),
            final(self).connections() == old(self).connections(),
            final(self).statements() == old(self).statements(),
            final(self).resultsets() == old(self).resultsets(),
            match begun {
                Ok(transaction) => {
                    &&& reply matches Reply::Transaction(adapter) && adapter.ident() == id@
                    &&& final(self).transactions() == old(self).transactions().insert(
                        id@,
                        transaction,
                    )
                },
                Err(e) => {
                    &&& reply matches Reply::Failed(passed) && passed == e
                    &&& final(self).transactions() == old(self).transactions()
                },
            },
    {
        match begun {
            Ok(transaction) => {
                let adapter = AsyncTransaction::new(id.clone());
                let _ = self.txs.insert(id, transaction);
                Reply::Transaction(adapter)
            },
            Err(e) => Reply::Failed(e),
        }
    }

    /// Takes in what the driver made of a query: the cursor is held under
    /// `id`, and the caller gets the adapter.
    pub fn admit_rows(&mut self, id: String, queried: Result<RowsOf<D>, Error>) -> (reply: Reply)
        requires
            old(self).wf(),
        ensures
            final(self).wf(),
            final(self).driver() == old(self).driver(),
            final(self).connections() == old(self).connections(),
            final(self).statements() == old(self).statements(),
            final(self).transactions() == old(self).transactions(),
            match queried {
                Ok(rows) => {
                    &&& reply matches Reply::Rows(adapter) && adapter.ident() == id@
                    &&& final(self).resultsets() == old(self).resultsets().insert(id@, rows)
                },
                Err(e) => {
                    &&& reply matches Reply::Failed(passed) && passed == e
                    &&& final(self).resultsets() == old(self).resultsets()
                },
            },
    {
        match queried {
            Ok(rows) => {
                let adapter = AsyncRows::new(id.clone());
                let _ = self.results.insert(id, rows);
                Reply::Rows(adapter)
            },
            Err(e) => Reply::Failed(e),
        }
    }
}

impl<D: Driver> Worker<D> {
    /// Both workers have the same driver and hold the same resources.
    pub open spec fn holds_what(&self, other: &Self) -> bool {
        &&& self.driver() == other.driver()
        &&& self.connections() == other.connections()
        &&& self.statements() == other.statements()
        &&& self.transactions() == other.transactions()
        &&& self.resultsets() == other.resultsets()
    }

    /// The answer to a task whose resource is not held: the error, and
    /// nothing changes.
    pub open spec fn misses(&self, id: Seq<char>, reply: Reply, after: &Self) -> bool {
        &&& reply matches Reply::Failed(e) && e@ == ErrorView::ResourceNotFound(id)
        &&& after.holds_what(self)
    }

    /// The reply that carries a statement's adapter for what a prepare
    /// answered, and the statements held afterwards: a statement is held
    /// under the id of the adapter, which knows its number of slots; an
    /// error is handed on.
    pub open spec fn admits_statement(
        &self,
        prepared: Result<StatementOf<D>, Error>,
        reply: Reply,
        after: &Self,
    ) -> bool {
        match prepared {
            Ok(statement) => {
                &&& reply matches Reply::Statement(adapter) && adapter.inputs() == statement.slots()
                    && after.statements() == self.statements().insert(adapter.ident(), statement)
            },
            Err(e) => {
                &&& reply matches Reply::Failed(passed) && passed == e
                &&& after.statements() == self.statements()
            },
        }
    }

    /// The reply to a task that is answered with nothing but success: done,
    /// or the error handed on.
    pub open spec fn finished(outcome: Result<(), Error>, reply: Reply) -> bool {
        match outcome {
            Ok(()) => reply is Finished,
            Err(e) => reply matches Reply::Failed(passed) && passed == e,
        }
    }

    /// How the worker answers `task`.
    ///
    /// A task that names a resource the worker does not hold fails with
    /// `ResourceNotFound` and changes nothing. A close removes the entry and
    /// nothing else. Every other task asks the resource it names, or the
    /// driver for an open, for what the task says, with what the task
    /// carries; only that resource changes. The reply carries what was
    /// answered: the value, or the error as it is, or, where a resource was
    /// made, an adapter under whose id the worker now holds that resource.
    pub open spec fn answers(&self, task: Task, reply: Reply, after: &Self) -> bool {
        &&& after.wf()
        &&& match task {
            Task::Open(url) => {
                &&& after.statements() == self.statements()
                &&& after.transactions() == self.transactions()
                &&& after.resultsets() == self.resultsets()
                &&& exists|text: &str, opened: Result<ConnectionOf<D>, Error>|
                    text@ == url@ && #[trigger] self.driver().opens(text, opened, after.driver())
                        && match opened {
                        Ok(connection) => {
                            &&& reply matches Reply::Connection(adapter) && adapter.ident()
                                == connection.ident()@
                            &&& after.connections() == self.connections().insert(
                                connection.ident()@,
                                connection,
                            )
                        },
                        Err(e) => {
                            &&& reply matches Reply::Failed(passed) && passed == e
                            &&& after.connections() == self.connections()
                        },
                    }
            },
            Task::Prepare(id, query) => if self.connections().contains_key(id@) {
                &&& after.driver() == self.driver()
                &&& put(self.connections(), after.connections(), id@)
                &&& after.transactions() == self.transactions()
                &&& after.resultsets() == self.resultsets()
                &&& exists|text: &str, prepared: Result<StatementOf<D>, Error>|
                    text@ == query@ && #[trigger] self.connections()[id@].prepares(
                        text,
                        prepared,
                        after.connections()[id@],
                    ) && self.admits_statement(prepared, reply, after)
            } else {
                self.misses(id@, reply, after)
            },
            Task::TxPrepare(id, query) => if self.transactions().contains_key(id@) {
                &&& after.driver() == self.driver()
                &&& put(self.transactions(), after.transactions(), id@)
                &&& after.connections() == self.connections()
                &&& after.resultsets() == self.resultsets()
                &&& exists|text: &str, prepared: Result<StatementOf<D>, Error>|
                    text@ == query@ && #[trigger] self.transactions()[id@].prepares(
                        text,
                        prepared,
                        after.transactions()[id@],
                    ) && self.admits_statement(prepared, reply, after)
            } else {
                self.misses(id@, reply, after)
            },
            Task::Begin(id) => if self.connections().contains_key(id@) {
                &&& after.driver() == self.driver()
                &&& put(self.connections(), after.connections(), id@)
                &&& after.statements() == self.statements()
                &&& after.resultsets() == self.resultsets()
                &&& exists|begun: Result<TransactionOf<D>, Error>| #[trigger]
                    self.connections()[id@].begins(begun, after.connections()[id@]) && match begun {
                        Ok(transaction) => {
                            &&& reply matches Reply::Transaction(adapter) && after.transactions()
                                == self.transactions().insert(adapter.ident(), transaction)
                        },
                        Err(e) => {
                            &&& reply matches Reply::Failed(passed) && passed == e
                            &&& after.transactions() == self.transactions()
                        },
                    }
            } else {
                self.misses(id@, reply, after)
            },
            Task::Execute(id, args) => if self.statements().contains_key(id@) {
                &&& after.driver() == self.driver()
                &&& put(self.statements(), after.statements(), id@)
                &&& after.connections() == self.connections()
                &&& after.transactions() == self.transactions()
                &&& after.resultsets() == self.resultsets()
                &&& exists|outcome: Result<ExecuteResult, Error>| #[trigger]
                    self.statements()[id@].executes(args, outcome, after.statements()[id@])
                        && match outcome {
                        Ok(result) => reply matches Reply::Executed(handed) && handed == result,
                        Err(e) => reply matches Reply::Failed(passed) && passed == e,
                    }
            } else {
                self.misses(id@, reply, after)
            },
            Task::Query(id, args) => if self.statements().contains_key(id@) {
                &&& after.driver() == self.driver()
                &&& put(self.statements(), after.statements(), id@)
                &&& after.connections() == self.connections()
                &&& after.transactions() == self.transactions()
                &&& exists|queried: Result<RowsOf<D>, Error>| #[trigger]
                    self.statements()[id@].queries(args, queried, after.statements()[id@])
                        && match queried {
                        Ok(rows) => {
                            &&& reply matches Reply::Rows(adapter) && after.resultsets()
                                == self.resultsets().insert(adapter.ident(), rows)
                        },
                        Err(e) => {
                            &&& reply matches Reply::Failed(passed) && passed == e
                            &&& after.resultsets() == self.resultsets()
                        },
                    }
            } else {
                self.misses(id@, reply, after)
            },
            Task::Columns(id) => if self.resultsets().contains_key(id@) {
                &&& after.driver() == self.driver()
                &&& put(self.resultsets(), after.resultsets(), id@)
                &&& after.connections() == self.connections()
                &&& after.statements() == self.statements()
                &&& after.transactions() == self.transactions()
                &&& exists|outcome: Result<Vec<ColumnMetaData>, Error>| #[trigger]
                    self.resultsets()[id@].describes(outcome, after.resultsets()[id@])
                        && match outcome {
                        Ok(columns) => reply matches Reply::Columns(handed) && handed == columns,
                        Err(e) => reply matches Reply::Failed(passed) && passed == e,
                    }
            } else {
                self.misses(id@, reply, after)
            },
            Task::RowsNext(id) => if self.resultsets().contains_key(id@) {
                &&& after.driver() == self.driver()
                &&& put(self.resultsets(), after.resultsets(), id@)
                &&& after.connections() == self.connections()
                &&& after.statements() == self.statements()
                &&& after.transactions() == self.transactions()
                &&& exists|outcome: Result<bool, Error>| #[trigger]
                    self.resultsets()[id@].steps(outcome, after.resultsets()[id@]) && match outcome {
                        Ok(found) => reply matches Reply::Stepped(handed) && handed == found,
                        Err(e) => reply matches Reply::Failed(passed) && passed == e,
                    }
            } else {
                self.misses(id@, reply, after)
            },
            Task::RowsGet(id, pos, column_type) => if self.resultsets().contains_key(id@) {
                &&& after.driver() == self.driver()
                &&& put(self.resultsets(), after.resultsets(), id@)
                &&& after.connections() == self.connections()
                &&& after.statements() == self.statements()
                &&& after.transactions() == self.transactions()
                &&& exists|outcome: Result<Value, Error>| #[trigger]
                    self.resultsets()[id@].gets(pos, column_type, outcome, after.resultsets()[id@])
                        && match outcome {
                        Ok(value) => reply matches Reply::Fetched(handed) && handed == value,
                        Err(e) => reply matches Reply::Failed(passed) && passed == e,
                    }
            } else {
                self.misses(id@, reply, after)
            },
            Task::Commit(id) => if self.transactions().contains_key(id@) {
                &&& after.driver() == self.driver()
                &&& put(self.transactions(), after.transactions(), id@)
                &&& after.connections() == self.connections()
                &&& after.statements() == self.statements()
                &&& after.resultsets() == self.resultsets()
                &&& exists|outcome: Result<(), Error>| #[trigger]
                    self.transactions()[id@].commits(outcome, after.transactions()[id@])
                        && Self::finished(outcome, reply)
            } else {
                self.misses(id@, reply, after)
            },
            Task::Rollback(id) => if self.transactions().contains_key(id@) {
                &&& after.driver() == self.driver()
                &&& put(self.transactions(), after.transactions(), id@)
                &&& after.connections() == self.connections()
                &&& after.statements() == self.statements()
                &&& after.resultsets() == self.resultsets()
                &&& exists|outcome: Result<(), Error>| #[trigger]
                    self.transactions()[id@].rolls_back(outcome, after.transactions()[id@])
                        && Self::finished(outcome, reply)
            } else {
                self.misses(id@, reply, after)
            },
            Task::CloseConnection(id) => {
                &&& reply is Closed
                &&& after.driver() == self.driver()
                &&& after.connections() == self.connections().remove(id@)
                &&& after.statements() == self.statements()
                &&& after.transactions() == self.transactions()
                &&& after.resultsets() == self.resultsets()
            },
            Task::CloseTx(id) => {
                &&& reply is Closed
                &&& after.driver() == self.driver()
                &&& after.transactions() == self.transactions().remove(id@)
                &&& after.connections() == self.connections()
                &&& after.statements() == self.statements()
                &&& after.resultsets() == self.resultsets()
            },
            Task::CloseStmt(id) => {
                &&& reply is Closed
                &&& after.driver() == self.driver()
                &&& after.statements() == self.statements().remove(id@)
                &&& after.connections() == self.connections()
                &&& after.transactions() == self.transactions()
                &&& after.resultsets() == self.resultsets()
            },
            Task::CloseRows(id) => {
                &&& reply is Closed
                &&& after.driver() == self.driver()
                &&& after.resultsets() == self.resultsets().remove(id@)
                &&& after.connections() == self.connections()
                &&& after.statements() == self.statements()
                &&& after.transactions() == self.transactions()
            },
        }
    }

    /// What was closed is gone: after a cursor was closed, a step on its id
    /// is answered with `ResourceNotFound` and changes nothing. The same
    /// holds of a statement and `Execute`, of a transaction and `Commit`,
    /// and of a connection and `Begin`.
    pub proof fn lemma_closed_is_gone(
        &self,
        id: String,
        args: Vec<Arg>,
        closed: Reply,
        mid: &Self,
        reply: Reply,
        after: &Self,
    )
        ensures
            self.answers(Task::CloseRows(id), closed, mid) && mid.answers(
                Task::RowsNext(id),
                reply,
                after,
            ) ==> mid.misses(id@, reply, after),
            self.answers(Task::CloseStmt(id), closed, mid) && mid.answers(
                Task::Execute(id, args),
                reply,
                after,
            ) ==> mid.misses(id@, reply, after),
            self.answers(Task::CloseTx(id), closed, mid) && mid.answers(
                Task::Commit(id),
                reply,
                after,
            ) ==> mid.misses(id@, reply, after),
            self.answers(Task::CloseConnection(id), closed, mid) && mid.answers(
                Task::Begin(id),
                reply,
                after,
            ) ==> mid.misses(id@, reply, after),
    {
    }

    /// Serves one task.
    pub fn apply(&mut self, task: Task) -> (reply: Reply)
        requires
            old(self).wf(),
        ensures
            old(self).answers(task, reply, final(self)),
    {
        match task {
            Task::Begin(id) => {
                let begun = match fetch_object(&mut self.cnns, id.as_str()) {
                    Ok(connection) => connection.begin(),
                    Err(e) => {
                        return Reply::Failed(e);
                    },
                };
                let ghost answered = begun;
                let reply = self.admit_transaction(random_id(), begun);
                assert(old(self).connections()[id@].begins(answered, self.connections()[id@]));
                reply
            },
            Task::CloseConnection(id) => {
                let _ = self.cnns.remove(id.as_str());
                Reply::Closed
            },
            Task::Prepare(id, query) => {
                let text = query.as_str();
                let prepared = match fetch_object(&mut self.cnns, id.as_str()) {
                    Ok(connection) => connection.prepare(text),
                    Err(e) => {
                        return Reply::Failed(e);
                    },
                };
                let ghost answered = prepared;
                let reply = self.admit_statement(random_id(), prepared);
                assert(old(self).connections()[id@].prepares(
                    text,
                    answered,
                    self.connections()[id@],
                ));
                reply
            },
            Task::Open(url) => {
                let text = url.as_str();
                let opened = self.driver.open(text);
                let ghost answered = opened;
                let reply = self.admit_connection(opened);
                assert(old(self).driver().opens(text, answered, self.driver()));
                reply
            },
            Task::Execute(id, args) => {
                let ghost handed = args;
                let outcome = match fetch_object(&mut self.stmts, id.as_str()) {
                    Ok(statement) => statement.execute(args),
                    Err(e) => {
                        return Reply::Failed(e);
                    },
                };
                assert(old(self).statements()[id@].executes(
                    handed,
                    outcome,
                    self.statements()[id@],
                ));
                match outcome {
                    Ok(result) => Reply::Executed(result),
                    Err(e) => Reply::Failed(e),
                }
            },
            Task::Query(id, args) => {
                let ghost handed = args;
                let queried = match fetch_object(&mut self.stmts, id.as_str()) {
                    Ok(statement) => statement.query(args),
                    Err(e) => {
                        return Reply::Failed(e);
                    },
                };
                let ghost answered = queried;
                let reply = self.admit_rows(random_id(), queried);
                assert(old(self).statements()[id@].queries(
                    handed,
                    answered,
                    self.statements()[id@],
                ));
                reply
            },
            Task::Columns(id) => {
                let outcome = match fetch_object(&mut self.results, id.as_str()) {
                    Ok(rows) => rows.colunms(),
                    Err(e) => {
                        return Reply::Failed(e);
                    },
                };
                assert(old(self).resultsets()[id@].describes(outcome, self.resultsets()[id@]));
                match outcome {
                    Ok(columns) => Reply::Columns(columns),
                    Err(e) => Reply::Failed(e),
                }
            },
            Task::RowsNext(id) => {
                let outcome = match fetch_object(&mut self.results, id.as_str()) {
                    Ok(rows) => rows.next(),
                    Err(e) => {
                        return Reply::Failed(e);
                    },
                };
                assert(old(self).resultsets()[id@].steps(outcome, self.resultsets()[id@]));
                match outcome {
                    Ok(found) => Reply::Stepped(found),
                    Err(e) => Reply::Failed(e),
                }
            },
            Task::RowsGet(id, pos, column_type) => {
                let ghost asked = pos;
                let outcome = match fetch_object(&mut self.results, id.as_str()) {
                    Ok(rows) => rows.get(pos, column_type),
                    Err(e) => {
                        return Reply::Failed(e);
                    },
                };
                assert(old(self).resultsets()[id@].gets(
                    asked,
                    column_type,
                    outcome,
                    self.resultsets()[id@],
                ));
                match outcome {
                    Ok(value) => Reply::Fetched(value),
                    Err(e) => Reply::Failed(e),
                }
            },
            Task::TxPrepare(id, query) => {
                let text = query.as_str();
                let prepared = match fetch_object(&mut self.txs, id.as_str()) {
                    Ok(transaction) => transaction.prepare(text),
                    Err(e) => {
                        return Reply::Failed(e);
                    },
                };
                let ghost answered = prepared;
                let reply = self.admit_statement(random_id(), prepared);
                assert(old(self).transactions()[id@].prepares(
                    text,
                    answered,
                    self.transactions()[id@],
                ));
                reply
            },
            Task::Commit(id) => {
                let outcome = match fetch_object(&mut self.txs, id.as_str()) {
                    Ok(transaction) => transaction.commit(),
                    Err(e) => {
                        return Reply::Failed(e);
                    },
                };
                assert(old(self).transactions()[id@].commits(outcome, self.transactions()[id@]));
                match outcome {
                    Ok(()) => Reply::Finished,
                    Err(e) => Reply::Failed(e),
                }
            },
            Task::Rollback(id) => {
                let outcome = match fetch_object(&mut self.txs, id.as_str()) {
                    Ok(transaction) => transaction.rollback(),
                    Err(e) => {
                        return Reply::Failed(e);
                    },
                };
                assert(old(self).transactions()[id@].rolls_back(
                    outcome,
                    self.transactions()[id@],
                ));
                match outcome {
                    Ok(()) => Reply::Finished,
                    Err(e) => Reply::Failed(e),
                }
            },
            Task::CloseTx(id) => {
                let _ = self.txs.remove(id.as_str());
                Reply::Closed
            },
            Task::CloseStmt(id) => {
                let _ = self.stmts.remove(id.as_str());
                Reply::Closed
            },
            Task::CloseRows(id) => {
                let _ = self.results.remove(id.as_str());
                Reply::Closed
            },
        }
    }
}

impl<D: Driver> Worker<D> {
    /// `trail` holds the worker before the first task and after each task,
    /// and each reply answers its task from the state before it to the state
    /// after it.
    pub open spec fn serves_along(trail: Seq<Self>, tasks: Seq<Task>, replies: Seq<Reply>) -> bool {
        &&& trail.len() == tasks.len() + 1
        &&& replies.len() == tasks.len()
        &&& forall|i: int|
            0 <= i < tasks.len() ==> (#[trigger] trail[i]).answers(
                tasks[i],
                replies[i],
                &trail[i + 1],
            )
    }

    /// Serving `tasks` one after the other, starting from this worker, can
    /// give `replies`, one per task and in the order of the tasks, and leave
    /// the worker as `after`.
    pub open spec fn serves(&self, tasks: Seq<Task>, replies: Seq<Reply>, after: &Self) -> bool {
        exists|trail: Seq<Self>|
            {
                &&& #[trigger] Self::serves_along(trail, tasks, replies)
                &&& trail[0] == *self
                &&& trail.last() == *after
            }
    }

    /// Serves the tasks in the order given; the reply to each task stands
    /// at the task's place.
    pub fn execute_loop(&mut self, tasks: Vec<Task>) -> (replies: Vec<Reply>)
        requires
            old(self).wf(),
        ensures
            final(self).wf(),
            replies.len() == tasks.len(),
            old(self).serves(tasks@, replies@, final(self)),
    {
        let mut pending = tasks;
        let mut replies: Vec<Reply> = Vec::new();
        let ghost all = pending@;
        let ghost mut trail: Seq<Self> = seq![*self];
        while pending.len() > 0
            invariant
                self.wf(),
                replies.len() + pending.len() == all.len(),
                pending@ == all.subrange(replies.len() as int, all.len() as int),
                Self::serves_along(trail, all.subrange(0, replies.len() as int), replies@),
                trail[0] == *old(self),
                trail.last() == *self,
            decreases pending.len(),
        {
            let ghost shorter = trail;
            let task = pending.remove(0);
            let reply = self.apply(task);
            replies.push(reply);
            proof {
                trail = trail.push(*self);
                let now = all.subrange(0, replies.len() as int);
                assert forall|i: int| 0 <= i < now.len() implies (#[trigger] trail[i]).answers(
                    now[i],
                    replies@[i],
                    &trail[i + 1],
                ) by {
                    if i < now.len() - 1 {
                        assert(trail[i] == shorter[i]);
                        assert(trail[i + 1] == shorter[i + 1]);
                    }
                }
                assert(pending@ =~= all.subrange(replies.len() as int, all.len() as int));
            }
        }
        assert(all.subrange(0, replies.len() as int) =~= all);
        replies
    }
}

} // verus!
