//! End-to-end runs against a small engine that lives in memory. The engine
//! answers with the result codes of the native library, and the driver below
//! turns them into results through the reference driver's own functions.

use std::cell::{Cell, RefCell};
use std::collections::HashMap;
use std::rc::Rc;

use rdbc::driver;
use rdbc::sqlite3::async_driver::{Reply, Task, Worker};
use rdbc::sqlite3::register_sqlite3;
use rdbc::sqlite3::sqlite3_rs as native;
use rdbc::{
    Arg, ColumnMetaData, ColumnType, DataSource, Database, Error, ExecuteResult, Placeholder,
    Rows, Statement, TxState, Value,
};

const CREATE: &str = "CREATE TABLE t(x INTEGER PRIMARY KEY ASC, y TEXT, z NUMERIC);";
const INSERT: &str = "INSERT INTO t(y,z) VALUES(?,?);";
const SELECT: &str = "SELECT * FROM t";

const SQLITE_ERROR: i32 = 1;
const SQLITE_CANTOPEN: i32 = 14;
const SQLITE_RANGE: i32 = 25;

/// One database: the rows of table `t`, if the table exists.
#[derive(Clone, Default)]
struct Store {
    table: Option<Vec<(i64, String, String)>>,
    in_transaction: bool,
}

/// All databases, by url, and a count of the handles given out.
#[derive(Default)]
struct Engine {
    shared: HashMap<String, Rc<RefCell<Store>>>,
    handles: u64,
    opened: u64,
}

impl Engine {
    fn handle(&mut self) -> String {
        self.handles += 1;
        format!("0x{:x}", self.handles)
    }
}

struct MemDriver {
    engine: Rc<RefCell<Engine>>,
}

impl MemDriver {
    fn new() -> Self {
        MemDriver { engine: Rc::new(RefCell::new(Engine::default())) }
    }
}

struct MemConnection {
    state: native::Connection,
    store: Rc<RefCell<Store>>,
    engine: Rc<RefCell<Engine>>,
    valid: Rc<Cell<bool>>,
}

struct MemTransaction {
    state: native::Transaction,
    store: Rc<RefCell<Store>>,
    engine: Rc<RefCell<Engine>>,
    saved: Store,
}

#[derive(Clone, Copy, PartialEq)]
enum Kind {
    Create,
    Insert,
    Select,
}

struct MemStatement {
    state: native::Statement,
    store: Rc<RefCell<Store>>,
    kind: Kind,
    slots: Vec<Value>,
}

struct MemRows {
    state: native::Rows,
    store: Rc<RefCell<Store>>,
    position: usize,
    current: Option<(i64, String, String)>,
}

fn compile(
    store: &Rc<RefCell<Store>>,
    engine: &Rc<RefCell<Engine>>,
    query: &str,
) -> (i32, Option<(String, Kind)>, String) {
    let trimmed = query.trim();
    if trimmed.is_empty() || trimmed.starts_with("--") {
        return (native::SQLITE_OK, None, String::new());
    }
    let kind = if query == CREATE {
        Kind::Create
    } else if query == INSERT {
        Kind::Insert
    } else if query == SELECT {
        Kind::Select
    } else {
        return (SQLITE_ERROR, None, "near \"".to_owned() + query + "\": syntax error");
    };
    if kind != Kind::Create && store.borrow().table.is_none() {
        return (SQLITE_ERROR, None, "no such table: t".to_owned());
    }
    let handle = engine.borrow_mut().handle();
    (native::SQLITE_OK, Some((handle, kind)), String::new())
}

fn statement_from(
    prepared: Result<native::Statement, Error>,
    store: &Rc<RefCell<Store>>,
    kind: Option<Kind>,
) -> Result<MemStatement, Error> {
    let state = prepared?;
    let kind = kind.unwrap();
    let slots = if kind == Kind::Insert { vec![Value::Null, Value::Null] } else { vec![] };
    Ok(MemStatement { state, store: store.clone(), kind, slots })
}

impl driver::Driver for MemDriver {
    type Connection = MemConnection;

    fn opens(&self, _: &str, _: Result<MemConnection, Error>, _: Self) -> bool {
        true
    }

    fn open(&mut self, url: &str) -> Result<MemConnection, Error> {
        native::c_text(url)?;
        if url.is_empty() {
            return native::Connection::open(url, SQLITE_CANTOPEN, None, "")
                .map(|_| unreachable!());
        }
        let store = if url == ":memory:" {
            Rc::new(RefCell::new(Store::default()))
        } else {
            self.engine.borrow_mut().shared.entry(url.to_owned()).or_default().clone()
        };
        let handle = self.engine.borrow_mut().handle();
        self.engine.borrow_mut().opened += 1;
        let state = native::Connection::open(url, native::SQLITE_OK, Some(handle), "")?;
        Ok(MemConnection {
            state,
            store,
            engine: self.engine.clone(),
            valid: Rc::new(Cell::new(true)),
        })
    }
}

impl driver::Connection for MemConnection {
    type Statement = MemStatement;
    type Transaction = MemTransaction;

    fn prepares(&self, _: &str, _: Result<MemStatement, Error>, _: Self) -> bool {
        true
    }

    fn begins(&self, _: Result<MemTransaction, Error>, _: Self) -> bool {
        true
    }

    fn says_valid(&self, _: bool) -> bool {
        true
    }

    fn ident(&self) -> String {
        self.state.id.clone()
    }

    fn prepare(&mut self, query: &str) -> Result<MemStatement, Error> {
        native::c_text(query)?;
        let (code, made, errmsg) = compile(&self.store, &self.engine, query);
        let (handle, kind) = match made {
            Some((handle, kind)) => (Some(handle), Some(kind)),
            None => (None, None),
        };
        statement_from(self.state.prepare(query, code, handle, &errmsg), &self.store, kind)
    }

    fn begin(&mut self) -> Result<MemTransaction, Error> {
        let saved = self.store.borrow().clone();
        let (code, errmsg) = if saved.in_transaction {
            (SQLITE_ERROR, "cannot start a transaction within a transaction")
        } else {
            self.store.borrow_mut().in_transaction = true;
            (native::SQLITE_OK, "")
        };
        let state = self.state.begin(code, errmsg)?;
        Ok(MemTransaction {
            state,
            store: self.store.clone(),
            engine: self.engine.clone(),
            saved,
        })
    }

    fn is_valid(&self) -> bool {
        self.valid.get()
    }

    fn id(&self) -> &str {
        &self.state.id
    }
}

impl MemTransaction {
    fn restore(&mut self) {
        *self.store.borrow_mut() = self.saved.clone();
    }
}

impl driver::Transaction for MemTransaction {
    type Statement = MemStatement;

    fn commits(&self, _: Result<(), Error>, _: Self) -> bool {
        true
    }

    fn rolls_back(&self, _: Result<(), Error>, _: Self) -> bool {
        true
    }

    fn prepares(&self, _: &str, _: Result<MemStatement, Error>, _: Self) -> bool {
        true
    }

    fn prepare(&mut self, query: &str) -> Result<MemStatement, Error> {
        native::c_text(query)?;
        let (code, made, errmsg) = compile(&self.store, &self.engine, query);
        let (handle, kind) = match made {
            Some((handle, kind)) => (Some(handle), Some(kind)),
            None => (None, None),
        };
        statement_from(self.state.prepare(query, code, handle, &errmsg), &self.store, kind)
    }

    fn commit(&mut self) -> Result<(), Error> {
        let (code, errmsg) = if self.state.is_finished() {
            (SQLITE_ERROR, "cannot commit - no transaction is active")
        } else {
            self.store.borrow_mut().in_transaction = false;
            (native::SQLITE_OK, "")
        };
        self.state.commit(code, errmsg)
    }

    fn rollback(&mut self) -> Result<(), Error> {
        let (code, errmsg) = if self.state.is_finished() {
            (SQLITE_ERROR, "cannot rollback - no transaction is active")
        } else {
            self.restore();
            (native::SQLITE_OK, "")
        };
        self.state.rollback(code, errmsg)
    }
}

impl Drop for MemTransaction {
    fn drop(&mut self) {
        if !self.state.is_finished() {
            self.restore();
        }
    }
}

impl MemStatement {
    fn bind(&mut self, args: &Vec<Arg>) -> Result<(), Error> {
        for slot in self.slots.iter_mut() {
            *slot = Value::Null;
        }
        for binding in self.state.bind_args(args)? {
            let index = binding.slot as usize;
            if index == 0 || index > self.slots.len() {
                self.state.bound(SQLITE_RANGE, "column index out of range")?;
            }
            self.slots[index - 1] = binding.value;
            self.state.bound(native::SQLITE_OK, "")?;
        }
        Ok(())
    }
}

fn text_of(value: &Value) -> String {
    match value {
        Value::String(text) => text.clone(),
        Value::I64(v) => v.to_string(),
        Value::F64(bits) => f64::from_bits(*bits).to_string(),
        Value::Bytes(bytes) => String::from_utf8_lossy(bytes).to_string(),
        Value::Null => String::new(),
    }
}

impl driver::Statement for MemStatement {
    type Rows = MemRows;

    fn queries(&self, _: Vec<Arg>, _: Result<MemRows, Error>, _: Self) -> bool {
        true
    }

    fn executes(&self, _: Vec<Arg>, _: Result<ExecuteResult, Error>, _: Self) -> bool {
        true
    }

    fn slots(&self) -> Option<u32> {
        self.state.num_input(self.slots.len() as i32)
    }

    fn num_input(&self) -> Option<u32> {
        self.state.num_input(self.slots.len() as i32)
    }

    fn execute(&mut self, args: Vec<Arg>) -> Result<ExecuteResult, Error> {
        self.bind(&args)?;
        let mut store = self.store.borrow_mut();
        let (code, rowid, changes, errmsg) = match self.kind {
            Kind::Create => {
                if store.table.is_some() {
                    (SQLITE_ERROR, 0, 0, "table t already exists")
                } else {
                    store.table = Some(vec![]);
                    (native::SQLITE_DONE, 0, 0, "")
                }
            }
            Kind::Insert => match store.table.as_mut() {
                Some(rows) => {
                    let rowid = rows.len() as i64 + 1;
                    rows.push((rowid, text_of(&self.slots[0]), text_of(&self.slots[1])));
                    (native::SQLITE_DONE, rowid, 1, "")
                }
                None => (SQLITE_ERROR, 0, 0, "no such table: t"),
            },
            Kind::Select => match store.table.as_ref() {
                Some(rows) if rows.is_empty() => (native::SQLITE_DONE, 0, 0, ""),
                Some(_) => (native::SQLITE_ROW, 0, 0, ""),
                None => (SQLITE_ERROR, 0, 0, "no such table: t"),
            },
        };
        drop(store);
        self.state.execute(code, rowid, changes, errmsg)
    }

    fn query(&mut self, args: Vec<Arg>) -> Result<MemRows, Error> {
        self.bind(&args)?;
        Ok(MemRows {
            state: self.state.query(),
            store: self.store.clone(),
            position: 0,
            current: None,
        })
    }
}

impl driver::Rows for MemRows {
    fn describes(&self, _: Result<Vec<ColumnMetaData>, Error>, _: Self) -> bool {
        true
    }

    fn steps(&self, _: Result<bool, Error>, _: Self) -> bool {
        true
    }

    fn gets(&self, _: Placeholder, _: ColumnType, _: Result<Value, Error>, _: Self) -> bool {
        true
    }

    fn colunms(&mut self) -> Result<Vec<ColumnMetaData>, Error> {
        if let Some(known) = self.state.cached() {
            return Ok(known);
        }
        let names = vec!["x".to_owned(), "y".to_owned(), "z".to_owned()];
        let decltypes = vec!["INTEGER".to_owned(), "TEXT".to_owned(), "NUMERIC".to_owned()];
        Ok(self.state.colunms(&names, &decltypes))
    }

    fn next(&mut self) -> Result<bool, Error> {
        let row = match self.store.borrow().table.as_ref() {
            Some(rows) => Ok(rows.get(self.position).cloned()),
            None => Err("no such table: t"),
        };
        match row {
            Ok(Some(row)) => {
                self.position += 1;
                self.current = Some(row);
                self.state.next(native::SQLITE_ROW, "")
            }
            Ok(None) => {
                self.current = None;
                self.state.next(native::SQLITE_DONE, "")
            }
            Err(errmsg) => {
                self.current = None;
                self.state.next(SQLITE_ERROR, errmsg)
            }
        }
    }

    fn get(&mut self, pos: Placeholder, column_type: ColumnType) -> Result<Value, Error> {
        let columns = self.colunms()?;
        let index = self.state.get(&pos, &columns)?;
        let row = self.current.clone().unwrap();
        let text = match index {
            0 => row.0.to_string(),
            1 => row.1,
            _ => row.2,
        };
        Ok(match column_type {
            ColumnType::I64 => Value::I64(text.parse::<f64>().map(|v| v as i64).unwrap_or(0)),
            ColumnType::F64 => Value::F64(text.parse::<f64>().unwrap_or(0.0).to_bits()),
            ColumnType::String => Value::String(text),
            ColumnType::Bytes => Value::Bytes(text.into_bytes()),
            ColumnType::Null => Value::Null,
        })
    }
}

fn registry() -> DataSource<MemDriver> {
    let mut source = DataSource::new();
    register_sqlite3(&mut source, MemDriver::new()).unwrap();
    source
}

fn hello_args() -> Vec<Arg> {
    vec![
        Arg { pos: Placeholder::Index(1), value: Value::String("hello world".to_owned()) },
        Arg { pos: Placeholder::Index(2), value: Value::String("7.82910138827292".to_owned()) },
    ]
}

fn expected_columns() -> Vec<ColumnMetaData> {
    vec![
        ColumnMetaData {
            column_index: 0,
            column_name: "x".to_owned(),
            column_decltype: "INTEGER".to_owned(),
            column_decltype_len: Some(8),
        },
        ColumnMetaData {
            column_index: 1,
            column_name: "y".to_owned(),
            column_decltype: "TEXT".to_owned(),
            column_decltype_len: None,
        },
        ColumnMetaData {
            column_index: 2,
            column_name: "z".to_owned(),
            column_decltype: "NUMERIC".to_owned(),
            column_decltype_len: None,
        },
    ]
}

fn check_first_row(rows: &mut Rows<MemRows>) {
    assert!(rows.next().unwrap());

    let id = rows.get(0.into(), ColumnType::I64).unwrap();

    assert_eq!(id, Value::I64(1));

    let y = rows.get(1.into(), ColumnType::String).unwrap();

    assert_eq!(y, Value::String("hello world".to_owned()));

    let z = rows.get(2.into(), ColumnType::String).unwrap();

    assert_eq!(z, Value::String("7.82910138827292".to_owned()));
}

#[test]
fn test_file_open() {
    let mut driver = MemDriver::new();

    let path = format!("file:{}", ".test/test.db");

    driver::Driver::open(&mut driver, &path).unwrap();
}

#[test]
fn test_memory_open() {
    let mut driver = MemDriver::new();

    driver::Driver::open(&mut driver, ":memory:").unwrap();
}

#[test]
fn test_create_table() {
    let mut source = registry();

    let mut db = source.open("sqlite3", ":memory:").unwrap();

    let mut stmt = db.prepare(&mut source, CREATE).unwrap();

    stmt.execute(vec![]).unwrap();

    db.close_statement(stmt);
    assert_eq!(db.idle(), 1);
}

#[test]
fn test_stmt() {
    let mut source = registry();

    let mut db = source.open("sqlite3", "file:memdb_stmt?mode=memory&cache=shared").unwrap();

    let mut create = db.prepare(&mut source, CREATE).unwrap();

    create.execute(vec![]).unwrap();

    let mut insert = db.prepare(&mut source, INSERT).unwrap();

    assert_eq!(insert.num_input(), Some(2));

    let result = insert.execute(hello_args()).unwrap();

    assert_eq!(result.last_insert_id, 1);
    assert_eq!(result.raws_affected, 1);

    let mut select = db.prepare(&mut source, SELECT).unwrap();

    assert_eq!(select.num_input(), Some(0));

    let mut rows = select.query(vec![]).unwrap();

    let columns = rows.colunms().unwrap();

    assert_eq!(columns, expected_columns());

    check_first_row(&mut rows);

    assert!(!rows.next().unwrap());

    // Three statements were alive at once, so three connections were opened
    // and all three come to rest.
    db.close_statement(select);
    db.close_statement(insert);
    db.close_statement(create);
    assert_eq!(db.idle(), 3);
}

fn fill_inside_transaction(
    source: &mut DataSource<MemDriver>,
    db: &mut Database<MemConnection>,
    commit: bool,
) {
    let mut tx = db.begin(source).unwrap();
    assert_eq!(tx.status(), TxState::Active);
    assert!(tx.has_connection());

    let mut stmt = tx.prepare(CREATE).unwrap();
    assert!(!stmt.has_connection());

    stmt.execute(vec![]).unwrap();

    let mut stmt = tx.prepare(INSERT).unwrap();

    assert_eq!(stmt.num_input(), Some(2));

    let result = stmt.execute(hello_args()).unwrap();

    assert_eq!(result.last_insert_id, 1);
    assert_eq!(result.raws_affected, 1);

    let mut stmt = tx.prepare(SELECT).unwrap();

    assert_eq!(stmt.num_input(), Some(0));

    let mut rows = stmt.query(vec![]).unwrap();

    let columns = rows.colunms().unwrap();

    assert_eq!(columns, expected_columns());

    check_first_row(&mut rows);

    assert!(!rows.next().unwrap());

    // A statement of a transaction returns nothing to the pool.
    let idle = db.idle();
    db.close_statement(stmt);
    assert_eq!(db.idle(), idle);

    if commit {
        tx.commit().unwrap();
        assert_eq!(tx.status(), TxState::Committed);
        assert!(db.close_transaction(tx).is_none());
    } else {
        assert_eq!(db.close_transaction(tx), Some(Ok(())));
    }
    assert_eq!(db.idle(), idle + 1);
}

#[test]
fn test_tx_commit_data() {
    let mut source = registry();

    let mut db = source.open("sqlite3", "file:memdb_commit?mode=memory&cache=shared").unwrap();

    fill_inside_transaction(&mut source, &mut db, true);

    let mut stmt = db.prepare(&mut source, SELECT).unwrap();

    assert_eq!(stmt.num_input(), Some(0));

    let mut rows = stmt.query(vec![]).unwrap();

    let columns = rows.colunms().unwrap();

    assert_eq!(columns, expected_columns());

    check_first_row(&mut rows);
}

#[test]
fn test_tx_rollback_data() {
    let mut source = registry();

    let mut db = source.open("sqlite3", "file:memdb_rollback?mode=memory&cache=shared").unwrap();

    fill_inside_transaction(&mut source, &mut db, false);

    // no such table: t
    let failed = db.prepare(&mut source, SELECT);
    assert!(failed.is_err());
    assert_eq!(
        failed.err(),
        Some(Error::DriverNative(1, "no such table: t, with SQL SELECT * FROM t".to_owned()))
    );
    // The connection that was checked out for the failed prepare is back.
    assert_eq!(db.idle(), 1);
}

#[test]
fn explicit_rollback_hides_data() {
    let mut source = registry();
    let mut db = source.open("sqlite3", "file:memdb_explicit?mode=memory&cache=shared").unwrap();

    let mut tx = db.begin(&mut source).unwrap();
    let mut stmt = tx.prepare(CREATE).unwrap();
    stmt.execute(vec![]).unwrap();
    tx.rollback().unwrap();
    assert_eq!(tx.status(), TxState::RolledBack);
    // A finished transaction is not rolled back again when it goes away.
    assert!(db.close_transaction(tx).is_none());

    assert!(db.prepare(&mut source, SELECT).is_err());
}

#[test]
fn second_commit_is_passed_on_and_changes_nothing() {
    let mut source = registry();
    let mut db = source.open("sqlite3", ":memory:").unwrap();
    let mut tx = db.begin(&mut source).unwrap();
    tx.commit().unwrap();
    assert_eq!(
        tx.commit(),
        Err(Error::DriverNative(
            1,
            "cannot commit - no transaction is active, with SQL COMMIT".to_owned()
        ))
    );
    assert_eq!(tx.status(), TxState::Committed);
    assert!(tx.rollback().is_err());
    assert_eq!(tx.status(), TxState::Committed);
}

#[test]
fn register_twice_fails() {
    let mut source: DataSource<MemDriver> = DataSource::new();
    assert_eq!(source.register_driver("x", MemDriver::new()), Ok(()));
    assert_eq!(
        source.register_driver("x", MemDriver::new()),
        Err(Error::DuplicateDriver("x".to_owned()))
    );
    // Once the name is free again it can be taken again.
    assert_eq!(source.unregister_driver("x"), Ok(()));
    assert_eq!(source.unregister_driver("x"), Ok(()));
    assert_eq!(source.register_driver("x", MemDriver::new()), Ok(()));
}

#[test]
fn register_sqlite3_takes_the_name_sqlite3() {
    let mut source = registry();
    assert_eq!(
        source.register_driver("sqlite3", MemDriver::new()),
        Err(Error::DuplicateDriver("sqlite3".to_owned()))
    );
    assert_eq!(
        register_sqlite3(&mut source, MemDriver::new()),
        Err(Error::DuplicateDriver("sqlite3".to_owned()))
    );
}

#[test]
fn open_unknown_driver_fails() {
    let mut source = registry();
    assert_eq!(source.open("nope", "…").err(), Some(Error::UnknownDriver("nope".to_owned())));
}

#[test]
fn open_does_not_dial() {
    let driver = MemDriver::new();
    let engine = driver.engine.clone();
    let mut source = DataSource::new();
    source.register_driver("mem", driver).unwrap();
    let db = source.open("mem", ":memory:").unwrap();
    assert_eq!(db.idle(), 0);
    assert_eq!(engine.borrow().opened, 0);
}

#[test]
fn driver_unregistered_after_open_is_unknown_at_prepare() {
    let mut source = registry();
    let mut db = source.open("sqlite3", ":memory:").unwrap();
    source.unregister_driver("sqlite3").unwrap();
    assert_eq!(
        db.prepare(&mut source, CREATE).err(),
        Some(Error::UnknownDriver("sqlite3".to_owned()))
    );
    assert_eq!(db.begin(&mut source).err(), Some(Error::UnknownDriver("sqlite3".to_owned())));
    assert_eq!(db.idle(), 0);
}

#[test]
fn get_before_next_is_not_positioned() {
    let mut source = registry();
    let mut db = source.open("sqlite3", "file:memdb_fresh?mode=memory&cache=shared").unwrap();
    let mut create = db.prepare(&mut source, CREATE).unwrap();
    create.execute(vec![]).unwrap();
    let mut select = db.prepare(&mut source, SELECT).unwrap();

    let mut rows = select.query(vec![]).unwrap();
    assert!(!rows.has_next());
    assert_eq!(rows.get(0.into(), ColumnType::I64), Err(Error::CursorNotPositioned));
    // Past the end of the set the cursor is off the rows again.
    assert_eq!(rows.next(), Ok(false));
    assert_eq!(rows.get(0.into(), ColumnType::I64), Err(Error::CursorNotPositioned));
    // Not positioned wins over out of range.
    assert_eq!(rows.get(9.into(), ColumnType::I64), Err(Error::CursorNotPositioned));
}

#[test]
fn memory_databases_are_private_to_their_connection() {
    let mut source = registry();
    let mut db = source.open("sqlite3", ":memory:").unwrap();
    let mut create = db.prepare(&mut source, CREATE).unwrap();
    create.execute(vec![]).unwrap();
    // A second connection sees a database of its own, without the table.
    assert!(db.prepare(&mut source, SELECT).is_err());
    // Once the first connection is back, it is the one handed out.
    db.close_statement(create);
    assert!(db.prepare(&mut source, SELECT).is_ok());
}

#[test]
fn get_out_of_range_and_by_name() {
    let mut source = registry();
    let mut db = source.open("sqlite3", "file:memdb_range?mode=memory&cache=shared").unwrap();
    let mut create = db.prepare(&mut source, CREATE).unwrap();
    create.execute(vec![]).unwrap();
    let mut insert = db.prepare(&mut source, INSERT).unwrap();
    insert.execute(hello_args()).unwrap();
    let mut select = db.prepare(&mut source, SELECT).unwrap();
    let mut rows = select.query(vec![]).unwrap();
    assert_eq!(rows.next(), Ok(true));
    // The columns are not known to the handle yet: the driver refuses.
    assert_eq!(rows.get(3.into(), ColumnType::I64), Err(Error::OutOfRange(3)));
    // Now they are: the handle refuses by itself.
    rows.colunms().unwrap();
    assert_eq!(rows.get(3.into(), ColumnType::I64), Err(Error::OutOfRange(3)));
    assert_eq!(rows.get(u64::MAX.into(), ColumnType::I64), Err(Error::OutOfRange(u64::MAX)));
    assert_eq!(rows.get("y".into(), ColumnType::String), Ok(Value::String("hello world".into())));
    assert_eq!(
        rows.get("w".into(), ColumnType::String),
        Err(Error::UnknownColumn("w".to_owned()))
    );
    assert_eq!(rows.get(0.into(), ColumnType::Null), Ok(Value::Null));
    assert_eq!(rows.get(0.into(), ColumnType::F64), Ok(Value::F64(1.0f64.to_bits())));
    assert_eq!(rows.get(1.into(), ColumnType::Bytes), Ok(Value::Bytes(b"hello world".to_vec())));
}

#[test]
fn columns_are_the_same_on_every_call() {
    let mut source = registry();
    let mut db = source.open("sqlite3", "file:memdb_cols?mode=memory&cache=shared").unwrap();
    let mut create = db.prepare(&mut source, CREATE).unwrap();
    create.execute(vec![]).unwrap();
    let mut select = db.prepare(&mut source, SELECT).unwrap();
    let mut rows = select.query(vec![]).unwrap();
    let first = rows.colunms().unwrap();
    let _ = rows.next();
    let second = rows.colunms().unwrap();
    assert_eq!(first, expected_columns());
    assert_eq!(first, second);
}

#[test]
fn execute_on_a_select_with_rows_is_unexpected_rows() {
    let mut source = registry();
    let mut db = source.open("sqlite3", "file:memdb_unexp?mode=memory&cache=shared").unwrap();
    let mut create = db.prepare(&mut source, CREATE).unwrap();
    create.execute(vec![]).unwrap();
    assert_eq!(
        create.execute(vec![]),
        Err(Error::DriverNative(1, "table t already exists".to_owned()))
    );
    let mut insert = db.prepare(&mut source, INSERT).unwrap();
    insert.execute(hello_args()).unwrap();
    let mut select = db.prepare(&mut source, SELECT).unwrap();
    assert_eq!(select.execute(vec![]), Err(Error::UnexpectedRows));
}

#[test]
fn bind_failures_surface_from_execute() {
    let mut source = registry();
    let mut db = source.open("sqlite3", "file:memdb_bind?mode=memory&cache=shared").unwrap();
    let mut create = db.prepare(&mut source, CREATE).unwrap();
    create.execute(vec![]).unwrap();
    let mut insert = db.prepare(&mut source, INSERT).unwrap();
    let nul = vec![Arg { pos: Placeholder::Index(1), value: Value::String("a\0b".to_owned()) }];
    assert_eq!(insert.execute(nul), Err(Error::BindFailure(Placeholder::Index(1))));
    let far = vec![Arg { pos: Placeholder::Index(3), value: Value::I64(1) }];
    assert_eq!(
        insert.execute(far),
        Err(Error::DriverNative(25, "column index out of range".to_owned()))
    );
    // Named arguments go by their place in the list.
    let named = vec![
        Arg { pos: "y".into(), value: Value::String("a".to_owned()) },
        Arg { pos: "z".into(), value: Value::String("b".to_owned()) },
    ];
    assert_eq!(insert.execute(named), Ok(ExecuteResult { last_insert_id: 1, raws_affected: 1 }));
}

#[test]
fn prepare_failures() {
    let mut source = registry();
    let mut db = source.open("sqlite3", ":memory:").unwrap();
    assert_eq!(db.prepare(&mut source, "").err(), Some(Error::InvalidSql("".to_owned())));
    assert_eq!(
        db.prepare(&mut source, "SELECT\0").err(),
        Some(Error::InteriorNul("SELECT\0".to_owned()))
    );
    assert_eq!(
        db.prepare(&mut source, "DROP").err(),
        Some(Error::DriverNative(1, "near \"DROP\": syntax error, with SQL DROP".to_owned()))
    );
    // Each failure gave its connection back, and each prepare reused it.
    assert_eq!(db.idle(), 1);
}

#[test]
fn open_failure_leaves_pool_empty() {
    let mut source = registry();
    let mut db = source.open("sqlite3", "").unwrap();
    assert_eq!(
        db.prepare(&mut source, CREATE).err(),
        Some(Error::DriverNative(14, "open sqlite  failure".to_owned()))
    );
    assert_eq!(db.idle(), 0);
    let mut db = source.open("sqlite3", "a\0").unwrap();
    assert_eq!(db.begin(&mut source).err(), Some(Error::InteriorNul("a\0".to_owned())));
}

#[test]
fn pool_settles_at_the_peak_of_connections_in_use() {
    let driver = MemDriver::new();
    let engine = driver.engine.clone();
    let mut source = DataSource::new();
    source.register_driver("mem", driver).unwrap();
    let mut db = source.open("mem", "file:memdb_pool?mode=memory&cache=shared").unwrap();

    for _ in 0..5 {
        let a = db.prepare(&mut source, CREATE).unwrap();
        let b = db.prepare(&mut source, CREATE).unwrap();
        assert!(a.has_connection() && b.has_connection());
        db.close_statement(a);
        db.close_statement(b);
        assert_eq!(db.idle(), 2);
    }
    for _ in 0..5 {
        let a = db.prepare(&mut source, CREATE).unwrap();
        assert_eq!(db.idle(), 1);
        db.close_statement(a);
        assert_eq!(db.idle(), 2);
    }
    assert_eq!(engine.borrow().opened, 2);
}

#[test]
fn checkout_drops_invalid_connections() {
    let mut source = registry();
    let mut db = source.open("sqlite3", "file:memdb_invalid?mode=memory&cache=shared").unwrap();
    let first = source.driver_mut("sqlite3").unwrap();
    let a = driver::Driver::open(first, "file:memdb_invalid?mode=memory&cache=shared").unwrap();
    let b = driver::Driver::open(first, "file:memdb_invalid?mode=memory&cache=shared").unwrap();
    let c = driver::Driver::open(first, "file:memdb_invalid?mode=memory&cache=shared").unwrap();
    let (a_id, b_id) = (a.state.id.clone(), b.state.id.clone());
    let c_valid = c.valid.clone();
    db.give_back(a);
    db.give_back(b);
    db.give_back(c);
    assert_eq!(db.idle(), 3);
    c_valid.set(false);

    // The newest is invalid and goes; the one before it is handed out.
    let picked = db.select_one_connection(&mut source).unwrap();
    assert_eq!(driver::Connection::id(&picked), b_id);
    assert_eq!(db.idle(), 1);
    let picked = db.select_one_connection(&mut source).unwrap();
    assert_eq!(driver::Connection::id(&picked), a_id);
    assert_eq!(db.idle(), 0);
}

#[test]
fn take_newest_does_not_ask() {
    let mut driver = MemDriver::new();
    let a = driver::Driver::open(&mut driver, ":memory:").unwrap();
    let b = driver::Driver::open(&mut driver, ":memory:").unwrap();
    let (a_id, b_id) = (a.state.id.clone(), b.state.id.clone());
    b.valid.set(false);
    let mut pool = rdbc::ConnectionPool::new();
    pool.give_back(a);
    pool.give_back(b);
    assert_eq!(pool.take_newest().unwrap().state.id, b_id);
    assert_eq!(pool.take_newest().unwrap().state.id, a_id);
    assert!(pool.take_newest().is_none());
}

#[test]
fn checkout_of_invalid_connections_only_empties_the_pool() {
    let mut driver = MemDriver::new();
    let mut pool = rdbc::ConnectionPool::new();
    for _ in 0..3 {
        let connection = driver::Driver::open(&mut driver, ":memory:").unwrap();
        connection.valid.set(false);
        pool.give_back(connection);
    }
    assert_eq!(pool.len(), 3);
    assert!(pool.checkout().is_none());
    assert_eq!(pool.len(), 0);
}

#[test]
fn returning_under_the_same_id_replaces() {
    let mut driver = MemDriver::new();
    let a = driver::Driver::open(&mut driver, ":memory:").unwrap();
    let twin = MemConnection {
        state: native::Connection { id: a.state.id.clone() },
        store: a.store.clone(),
        engine: a.engine.clone(),
        valid: Rc::new(Cell::new(true)),
    };
    let mut db: Database<MemConnection> = Database::new("mem", ":memory:");
    db.give_back(a);
    db.give_back(twin);
    assert_eq!(db.idle(), 1);
}

#[test]
fn statement_new_and_close_against_a_pool() {
    let mut driver = MemDriver::new();
    let mut conn = driver::Driver::open(&mut driver, ":memory:").unwrap();
    let inner = driver::Connection::prepare(&mut conn, CREATE).unwrap();
    let owning = Statement::new(Some(conn), inner);
    let mut pool = rdbc::ConnectionPool::new();
    assert_eq!(pool.len(), 0);
    owning.close(&mut pool);
    assert_eq!(pool.len(), 1);

    let mut conn = pool.checkout().unwrap();
    assert_eq!(pool.len(), 0);
    let inner = driver::Connection::prepare(&mut conn, CREATE).unwrap();
    let borrowing = Statement::new(None, inner);
    borrowing.close(&mut pool);
    assert_eq!(pool.len(), 0);
    assert!(pool.checkout().is_none());
}

#[test]
fn handle_pieces_work_around_a_call_made_elsewhere() {
    let mut source = registry();
    let mut db = source.open("sqlite3", "file:memdb_pieces?mode=memory&cache=shared").unwrap();
    let mut create = db.prepare(&mut source, CREATE).unwrap();
    create.execute(vec![]).unwrap();
    let mut insert = db.prepare(&mut source, INSERT).unwrap();
    insert.execute(hello_args()).unwrap();

    // The statement's own driver statement is asked directly; the handle
    // wraps what it answered.
    let mut select = db.prepare(&mut source, SELECT).unwrap();
    let queried = driver::Statement::query(select.inner_mut(), vec![]);
    let mut rows = Rows::wrap(queried).unwrap();
    assert!(!rows.has_next());
    assert_eq!(rows.cached(), None);
    assert_eq!(rows.refuse(&Placeholder::Index(0)), Some(Error::CursorNotPositioned));

    let stepped = driver::Rows::next(rows.inner_mut());
    assert_eq!(rows.latch(stepped), Ok(true));
    assert!(rows.has_next());
    assert_eq!(rows.refuse(&Placeholder::Index(7)), None);

    let fetched = driver::Rows::colunms(rows.inner_mut());
    assert_eq!(rows.remember(fetched), Ok(expected_columns()));
    assert_eq!(rows.cached(), Some(expected_columns()));
    assert_eq!(rows.refuse(&Placeholder::Index(7)), Some(Error::OutOfRange(7)));
    assert_eq!(rows.remember(Err(Error::ChannelClosed)), Err(Error::ChannelClosed));
    assert_eq!(rows.cached(), Some(expected_columns()));
    assert_eq!(rows.latch(Err(Error::ChannelClosed)), Err(Error::ChannelClosed));
    assert!(!rows.has_next());

    assert_eq!(
        Rows::<MemRows>::wrap(Err(Error::UnexpectedRows)).err(),
        Some(Error::UnexpectedRows)
    );
    assert_eq!(
        Statement::<MemConnection>::borrowing(Err(Error::UnexpectedRows)).err(),
        Some(Error::UnexpectedRows)
    );
}

#[test]
fn transaction_pieces_work_around_a_call_made_elsewhere() {
    let mut source = registry();
    let mut db = source.open("sqlite3", "file:memdb_tx_pieces?mode=memory&cache=shared").unwrap();
    let mut tx = db.begin(&mut source).unwrap();
    let prepared = driver::Transaction::prepare(tx.inner_mut(), CREATE);
    let mut create = Statement::<MemConnection>::borrowing(prepared).unwrap();
    assert!(!create.has_connection());
    create.execute(vec![]).unwrap();

    assert_eq!(driver::Transaction::commit(tx.inner_mut()), Ok(()));
    assert_eq!(tx.status(), TxState::Active);
    tx.note_commit();
    assert_eq!(tx.status(), TxState::Committed);
    tx.note_rollback();
    assert_eq!(tx.status(), TxState::Committed);
    assert!(db.close_transaction(tx).is_none());
    assert!(db.prepare(&mut source, SELECT).is_ok());

    let mut tx = db.begin(&mut source).unwrap();
    tx.note_rollback();
    assert_eq!(tx.status(), TxState::RolledBack);
    tx.note_commit();
    assert_eq!(tx.status(), TxState::RolledBack);
}

#[test]
fn driver_or_unknown_finds_what_is_registered() {
    let mut source = registry();
    assert!(source.driver_or_unknown("sqlite3").is_ok());
    assert_eq!(
        source.driver_or_unknown("nope").err(),
        Some(Error::UnknownDriver("nope".to_owned()))
    );
}

// The worker.

fn worker() -> Worker<MemDriver> {
    Worker::new(MemDriver::new())
}

fn connection_of(reply: Reply) -> rdbc::sqlite3::async_driver::AsyncConnection {
    match reply {
        Reply::Connection(adapter) => adapter,
        _ => panic!("no connection"),
    }
}

fn statement_of(reply: Reply) -> rdbc::sqlite3::async_driver::AsyncStatement {
    match reply {
        Reply::Statement(adapter) => adapter,
        _ => panic!("no statement"),
    }
}

fn failure_of(reply: Reply) -> Error {
    match reply {
        Reply::Failed(e) => e,
        _ => panic!("no failure"),
    }
}

#[test]
fn worker_serves_create_insert_select() {
    let mut worker = worker();
    let mut driver = rdbc::sqlite3::async_driver::AsyncDriver {};
    let mut conn = connection_of(worker.apply(driver.open(":memory:")));
    assert!(conn.is_valid());

    let mut create = statement_of(worker.apply(conn.prepare(CREATE)));
    assert_eq!(create.num_input(), Some(0));
    assert!(matches!(
        worker.apply(create.execute(vec![])),
        Reply::Executed(ExecuteResult { last_insert_id: 0, raws_affected: 0 })
    ));

    let mut insert = statement_of(worker.apply(conn.prepare(INSERT)));
    assert_eq!(insert.num_input(), Some(2));
    assert_ne!(insert.id(), create.id());
    assert_eq!(insert.id().len(), 36);
    assert!(matches!(
        worker.apply(insert.execute(hello_args())),
        Reply::Executed(ExecuteResult { last_insert_id: 1, raws_affected: 1 })
    ));

    let mut select = statement_of(worker.apply(conn.prepare(SELECT)));
    let mut rows = match worker.apply(select.query(vec![])) {
        Reply::Rows(adapter) => adapter,
        _ => panic!("no rows"),
    };
    assert_eq!(rows.id().len(), 36);
    match worker.apply(rows.colunms()) {
        Reply::Columns(columns) => assert_eq!(columns, expected_columns()),
        _ => panic!("no columns"),
    }
    assert!(matches!(worker.apply(rows.next()), Reply::Stepped(true)));
    match worker.apply(rows.get(1.into(), ColumnType::String)) {
        Reply::Fetched(value) => assert_eq!(value, Value::String("hello world".to_owned())),
        _ => panic!("no value"),
    }
    assert!(matches!(worker.apply(rows.next()), Reply::Stepped(false)));
    assert_eq!(
        failure_of(worker.apply(rows.get(1.into(), ColumnType::String))),
        Error::CursorNotPositioned
    );

    // After the close the worker no longer knows the cursor.
    let gone = rows.id().to_owned();
    let mut again = rdbc::sqlite3::async_driver::AsyncRows::new(gone.clone());
    assert!(matches!(worker.apply(rows.close()), Reply::Closed));
    assert_eq!(failure_of(worker.apply(again.next())), Error::ResourceNotFound(gone));
}

#[test]
fn worker_answers_unknown_ids_with_resource_not_found() {
    let mut worker = worker();
    let id = "nobody".to_owned();
    let tasks = vec![
        Task::Prepare(id.clone(), SELECT.to_owned()),
        Task::Begin(id.clone()),
        Task::Execute(id.clone(), vec![]),
        Task::Query(id.clone(), vec![]),
        Task::Columns(id.clone()),
        Task::RowsNext(id.clone()),
        Task::RowsGet(id.clone(), Placeholder::Index(0), ColumnType::I64),
        Task::TxPrepare(id.clone(), SELECT.to_owned()),
        Task::Commit(id.clone()),
        Task::Rollback(id.clone()),
    ];
    let count = tasks.len();
    let replies = worker.execute_loop(tasks);
    assert_eq!(replies.len(), count);
    for reply in replies {
        assert_eq!(failure_of(reply), Error::ResourceNotFound(id.clone()));
    }
    // Closing what is not there is no error.
    let replies = worker.execute_loop(vec![
        Task::CloseConnection(id.clone()),
        Task::CloseTx(id.clone()),
        Task::CloseStmt(id.clone()),
        Task::CloseRows(id.clone()),
    ]);
    assert!(replies.iter().all(|reply| matches!(reply, Reply::Closed)));
}

#[test]
fn worker_serves_a_batch_in_order() {
    let mut worker = worker();
    let mut conn = connection_of(
        worker.apply(Task::Open("file:memdb_batch?mode=memory&cache=shared".to_owned())),
    );
    let mut create = statement_of(worker.apply(conn.prepare(CREATE)));
    let id = conn.id().to_owned();
    let replies = worker.execute_loop(vec![
        create.execute(vec![]),
        create.execute(vec![]),
        conn.close(),
        Task::Begin(id.clone()),
    ]);
    assert_eq!(replies.len(), 4);
    let mut replies = replies.into_iter();
    assert!(matches!(replies.next(), Some(Reply::Executed(_))));
    assert_eq!(
        failure_of(replies.next().unwrap()),
        Error::DriverNative(1, "table t already exists".to_owned())
    );
    assert!(matches!(replies.next(), Some(Reply::Closed)));
    assert_eq!(failure_of(replies.next().unwrap()), Error::ResourceNotFound(id));
}

#[test]
fn worker_transaction_commit_and_rollback() {
    let mut worker = worker();
    let url = "file:memdb_worker_tx?mode=memory&cache=shared";
    let mut conn = connection_of(worker.apply(Task::Open(url.to_owned())));
    let mut tx = match worker.apply(conn.begin()) {
        Reply::Transaction(adapter) => adapter,
        _ => panic!("no transaction"),
    };
    assert_eq!(tx.id().len(), 36);
    let mut create = statement_of(worker.apply(tx.prepare(CREATE)));
    assert!(matches!(worker.apply(create.execute(vec![])), Reply::Executed(_)));
    assert!(matches!(worker.apply(tx.rollback()), Reply::Finished));
    assert_eq!(
        failure_of(worker.apply(conn.prepare(SELECT))),
        Error::DriverNative(1, "no such table: t, with SQL SELECT * FROM t".to_owned())
    );
    assert!(matches!(worker.apply(tx.close()), Reply::Closed));

    let mut tx = match worker.apply(conn.begin()) {
        Reply::Transaction(adapter) => adapter,
        _ => panic!("no transaction"),
    };
    let mut create = statement_of(worker.apply(tx.prepare(CREATE)));
    assert!(matches!(worker.apply(create.execute(vec![])), Reply::Executed(_)));
    assert!(matches!(worker.apply(tx.commit()), Reply::Finished));
    assert!(matches!(worker.apply(conn.prepare(SELECT)), Reply::Statement(_)));
    assert!(matches!(worker.apply(create.close()), Reply::Closed));
    assert_eq!(
        failure_of(worker.apply(Task::Open(String::new()))),
        Error::DriverNative(14, "open sqlite  failure".to_owned())
    );
}
