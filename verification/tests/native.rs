use rdbc::sqlite3::error::{db_native_error, error_with_sql, native_error};
use rdbc::sqlite3::sqlite3_rs::{
    c_text, Binding, Connection, Rows, Statement, Transaction, OPEN_FLAGS, SQLITE_DONE,
    SQLITE_OK, SQLITE_OPEN_CREATE, SQLITE_OPEN_NOMUTEX, SQLITE_OPEN_READWRITE, SQLITE_OPEN_URI,
    SQLITE_ROW,
};
use rdbc::{Arg, ColumnMetaData, Error, ExecuteResult, Placeholder, Value};

fn statement() -> Statement {
    Statement { id: "0x1".to_owned() }
}

fn plan(args: Vec<Arg>) -> Result<Vec<(i32, Value)>, Error> {
    statement()
        .bind_args(&args)
        .map(|bindings| bindings.into_iter().map(|Binding { slot, value }| (slot, value)).collect())
}

#[test]
fn open_flags_are_uri_create_readwrite_nomutex() {
    assert_eq!(
        OPEN_FLAGS,
        SQLITE_OPEN_URI | SQLITE_OPEN_CREATE | SQLITE_OPEN_READWRITE | SQLITE_OPEN_NOMUTEX
    );
    assert_eq!((SQLITE_OK, SQLITE_ROW, SQLITE_DONE), (0, 100, 101));
}

#[test]
fn native_errors_carry_code_and_message() {
    assert_eq!(native_error(5, "busy".to_owned()), Error::DriverNative(5, "busy".to_owned()));
    assert_eq!(db_native_error(5, "busy"), Error::DriverNative(5, "busy".to_owned()));
    assert_eq!(
        error_with_sql(1, "no such table: t", "SELECT * FROM t"),
        Error::DriverNative(1, "no such table: t, with SQL SELECT * FROM t".to_owned())
    );
}

#[test]
fn c_text_refuses_nul() {
    assert_eq!(c_text("file:a.db"), Ok(()));
    assert_eq!(c_text(""), Ok(()));
    assert_eq!(c_text("a\0b"), Err(Error::InteriorNul("a\0b".to_owned())));
    assert_eq!(c_text("\0"), Err(Error::InteriorNul("\0".to_owned())));
    assert_eq!(c_text("é\u{10000}"), Ok(()));
}

#[test]
fn open_succeeds_only_on_ok_with_a_handle() {
    let opened = Connection::open(":memory:", SQLITE_OK, Some("0x7f".to_owned()), "").unwrap();
    assert_eq!(opened.id, "0x7f");
    assert_eq!(
        Connection::open("a.db", 14, None, "ignored").err(),
        Some(Error::DriverNative(14, "open sqlite a.db failure".to_owned()))
    );
    assert_eq!(
        Connection::open("a.db", 14, Some("0x7f".to_owned()), "unable to open database file")
            .err(),
        Some(Error::DriverNative(14, "unable to open database file".to_owned()))
    );
    assert_eq!(
        Connection::open("a.db", SQLITE_OK, None, "").err(),
        Some(Error::DriverNative(0, "open sqlite a.db failure".to_owned()))
    );
}

#[test]
fn begin_makes_an_unfinished_transaction_under_a_random_id() {
    let mut conn = Connection { id: "0x7f".to_owned() };
    let first = conn.begin(SQLITE_OK, "").unwrap();
    let second = conn.begin(SQLITE_OK, "").unwrap();
    assert!(!first.is_finished());
    assert_eq!(first.id().len(), 36);
    assert_ne!(first.id(), second.id());
    assert_eq!(conn.id, "0x7f");
    assert_eq!(
        conn.begin(5, "database is locked").err(),
        Some(Error::DriverNative(5, "database is locked".to_owned()))
    );
}

#[test]
fn prepare_outcomes() {
    let mut conn = Connection { id: "0x7f".to_owned() };
    let made = conn.prepare("SELECT 1", SQLITE_OK, Some("0x80".to_owned()), "").unwrap();
    assert_eq!(made.id, "0x80");
    assert_eq!(
        conn.prepare("SELEC", 1, None, "near \"SELEC\": syntax error").err(),
        Some(Error::DriverNative(1, "near \"SELEC\": syntax error, with SQL SELEC".to_owned()))
    );
    // A failure code wins over a handle.
    assert_eq!(
        conn.prepare("q", 1, Some("0x80".to_owned()), "m").err(),
        Some(Error::DriverNative(1, "m, with SQL q".to_owned()))
    );
    assert_eq!(
        conn.prepare("-- nothing", SQLITE_OK, None, "").err(),
        Some(Error::InvalidSql("-- nothing".to_owned()))
    );
    let mut tx = Transaction::started(Connection { id: "0x7f".to_owned() }, "tx".to_owned());
    assert_eq!(tx.prepare("SELECT 1", SQLITE_OK, Some("0x81".to_owned()), "").unwrap().id, "0x81");
    assert_eq!(
        tx.prepare("", SQLITE_OK, None, "").err(),
        Some(Error::InvalidSql("".to_owned()))
    );
    assert!(!tx.is_finished());
}

#[test]
fn commit_and_rollback_finish_whatever_the_code() {
    let conn = || Connection { id: "0x7f".to_owned() };
    let mut tx = Transaction::started(conn(), "a".to_owned());
    assert_eq!(tx.id(), "a");
    assert_eq!(tx.commit(SQLITE_OK, ""), Ok(()));
    assert!(tx.is_finished());

    let mut tx = Transaction::started(conn(), "b".to_owned());
    assert_eq!(
        tx.commit(5, "database is locked"),
        Err(Error::DriverNative(5, "database is locked, with SQL COMMIT".to_owned()))
    );
    assert!(tx.is_finished());

    let mut tx = Transaction::started(conn(), "c".to_owned());
    assert_eq!(tx.rollback(SQLITE_OK, ""), Ok(()));
    assert!(tx.is_finished());

    let mut tx = Transaction::started(conn(), "d".to_owned());
    assert_eq!(
        tx.rollback(1, "no transaction"),
        Err(Error::DriverNative(1, "no transaction, with SQL ROLLBACK".to_owned()))
    );
    assert!(tx.is_finished());
}

#[test]
fn execute_outcomes() {
    let mut stmt = statement();
    assert_eq!(
        stmt.execute(SQLITE_DONE, 7, 3, ""),
        Ok(ExecuteResult { last_insert_id: 7, raws_affected: 3 })
    );
    assert_eq!(stmt.execute(SQLITE_ROW, 7, 3, ""), Err(Error::UnexpectedRows));
    assert_eq!(
        stmt.execute(19, 7, 3, "UNIQUE constraint failed: t.x"),
        Err(Error::DriverNative(19, "UNIQUE constraint failed: t.x".to_owned()))
    );
    assert_eq!(
        stmt.execute(SQLITE_OK, 7, 3, "not an error"),
        Err(Error::DriverNative(0, "not an error".to_owned()))
    );
    // Row ids may be negative; they wrap as the cast does.
    assert_eq!(
        stmt.execute(SQLITE_DONE, -1, -1, ""),
        Ok(ExecuteResult { last_insert_id: u64::MAX, raws_affected: u64::MAX })
    );
    assert_eq!(
        stmt.execute(SQLITE_DONE, i64::MIN, i32::MIN, ""),
        Ok(ExecuteResult { last_insert_id: 1 << 63, raws_affected: 0xffff_ffff_8000_0000 })
    );
    assert_eq!(stmt.id, "0x1");
}

#[test]
fn num_input_is_the_count() {
    assert_eq!(statement().num_input(2), Some(2));
    assert_eq!(statement().num_input(0), Some(0));
    assert_eq!(statement().num_input(-1), Some(u32::MAX));
}

#[test]
fn bound_outcomes() {
    assert_eq!(statement().bound(SQLITE_OK, "x"), Ok(()));
    assert_eq!(
        statement().bound(25, "column index out of range"),
        Err(Error::DriverNative(25, "column index out of range".to_owned()))
    );
}

#[test]
fn bindings_follow_the_arguments() {
    assert_eq!(plan(vec![]), Ok(vec![]));
    assert_eq!(
        plan(vec![
            Arg { pos: Placeholder::Index(1), value: Value::String("hello world".to_owned()) },
            Arg { pos: Placeholder::Index(2), value: Value::String("7.8".to_owned()) },
        ]),
        Ok(vec![
            (1, Value::String("hello world".to_owned())),
            (2, Value::String("7.8".to_owned())),
        ])
    );
    assert_eq!(
        plan(vec![
            Arg { pos: Placeholder::Index(2), value: Value::I64(-5) },
            Arg { pos: Placeholder::Index(1), value: Value::F64(1.5f64.to_bits()) },
            Arg { pos: Placeholder::Index(0), value: Value::Bytes(vec![0, 1, 2]) },
        ]),
        Ok(vec![
            (2, Value::I64(-5)),
            (1, Value::F64(1.5f64.to_bits())),
            (0, Value::Bytes(vec![0, 1, 2])),
        ])
    );
}

#[test]
fn null_is_not_bound() {
    assert_eq!(
        plan(vec![
            Arg { pos: Placeholder::Index(1), value: Value::Null },
            Arg { pos: Placeholder::Index(2), value: Value::I64(9) },
            Arg { pos: Placeholder::Index(u64::MAX), value: Value::Null },
        ]),
        Ok(vec![(2, Value::I64(9))])
    );
}

#[test]
fn named_arguments_go_by_their_place() {
    assert_eq!(
        plan(vec![
            Arg { pos: Placeholder::Name("b".to_owned()), value: Value::I64(1) },
            Arg { pos: Placeholder::Index(7), value: Value::I64(2) },
            Arg { pos: Placeholder::Name("a".to_owned()), value: Value::I64(3) },
        ]),
        Ok(vec![(1, Value::I64(1)), (7, Value::I64(2)), (3, Value::I64(3))])
    );
}

#[test]
fn first_argument_that_cannot_be_bound_decides() {
    assert_eq!(
        plan(vec![Arg { pos: Placeholder::Index(1 << 31), value: Value::I64(1) }]),
        Err(Error::OutOfRange(1 << 31))
    );
    assert_eq!(
        plan(vec![Arg { pos: Placeholder::Index((1 << 31) - 1), value: Value::I64(1) }]),
        Ok(vec![(i32::MAX, Value::I64(1))])
    );
    assert_eq!(
        plan(vec![
            Arg { pos: Placeholder::Index(1), value: Value::I64(1) },
            Arg { pos: Placeholder::Name("n".to_owned()), value: Value::String("\0".to_owned()) },
            Arg { pos: Placeholder::Index(u64::MAX), value: Value::I64(1) },
        ]),
        Err(Error::BindFailure(Placeholder::Name("n".to_owned())))
    );
    assert_eq!(
        plan(vec![
            Arg { pos: Placeholder::Index(u64::MAX), value: Value::String("\0".to_owned()) },
            Arg { pos: Placeholder::Index(1), value: Value::String("\0".to_owned()) },
        ]),
        Err(Error::OutOfRange(u64::MAX))
    );
    // A NUL inside bytes is fine.
    assert_eq!(
        plan(vec![Arg { pos: Placeholder::Index(1), value: Value::Bytes(vec![0]) }]),
        Ok(vec![(1, Value::Bytes(vec![0]))])
    );
}

#[test]
fn query_makes_a_fresh_cursor_under_a_random_id() {
    let mut stmt = statement();
    let first = stmt.query();
    let second = stmt.query();
    assert!(!first.has_next());
    assert!(first.cached().is_none());
    assert_eq!(first.id().len(), 36);
    assert_ne!(first.id(), second.id());
}

#[test]
fn cursor_steps() {
    let mut rows = Rows::over("rs".to_owned());
    assert_eq!(rows.id(), "rs");
    assert_eq!(rows.next(SQLITE_ROW, ""), Ok(true));
    assert!(rows.has_next());
    assert_eq!(rows.next(SQLITE_DONE, ""), Ok(false));
    assert!(!rows.has_next());
    assert_eq!(rows.next(SQLITE_ROW, ""), Ok(true));
    assert_eq!(
        rows.next(5, "database is locked"),
        Err(Error::DriverNative(5, "database is locked".to_owned()))
    );
    assert!(!rows.has_next());
    assert_eq!(rows.next(SQLITE_OK, "odd"), Err(Error::DriverNative(0, "odd".to_owned())));
}

#[test]
fn columns_are_built_once_and_kept() {
    let mut rows = Rows::over("rs".to_owned());
    assert!(rows.cached().is_none());
    let names = vec!["x".to_owned(), "y".to_owned(), "z".to_owned(), "w".to_owned()];
    let decltypes =
        vec!["INTEGER".to_owned(), "TEXT".to_owned(), "NUMERIC".to_owned(), "REAL".to_owned()];
    let built = rows.colunms(&names, &decltypes);
    let expected = vec![
        ColumnMetaData {
            column_index: 0,
            column_name: "x".to_owned(),
            column_decltype: "INTEGER".to_owned(),
            column_decltype_len: Some(8),
        },
        ColumnMetaData {
            column_index: 1,
            column_name: "y".to_owned(),
            column_decltype: "TEXT".to_owned(),
            column_decltype_len: None,
        },
        ColumnMetaData {
            column_index: 2,
            column_name: "z".to_owned(),
            column_decltype: "NUMERIC".to_owned(),
            column_decltype_len: None,
        },
        ColumnMetaData {
            column_index: 3,
            column_name: "w".to_owned(),
            column_decltype: "REAL".to_owned(),
            column_decltype_len: Some(8),
        },
    ];
    assert_eq!(built, expected);
    assert_eq!(rows.cached(), Some(expected.clone()));
    let _ = rows.next(SQLITE_ROW, "");
    assert_eq!(rows.cached(), Some(expected.clone()));

    assert_eq!(rows.get(&Placeholder::Index(3), &expected), Ok(3));
    assert_eq!(rows.get(&Placeholder::Index(4), &expected), Err(Error::OutOfRange(4)));
    assert_eq!(rows.get(&Placeholder::Name("z".to_owned()), &expected), Ok(2));
    assert_eq!(
        rows.get(&Placeholder::Name("Z".to_owned()), &expected),
        Err(Error::UnknownColumn("Z".to_owned()))
    );
    let _ = rows.next(SQLITE_DONE, "");
    assert_eq!(rows.get(&Placeholder::Index(0), &expected), Err(Error::CursorNotPositioned));
    assert_eq!(
        rows.get(&Placeholder::Name("q".to_owned()), &expected),
        Err(Error::CursorNotPositioned)
    );
    assert_eq!(Rows::over("e".to_owned()).colunms(&vec![], &vec![]), vec![]);
}
