//! The native resources of the reference driver, as far as their state is
//! plain data: ids, flags, the cursor's latch and memo.

use vstd::prelude::*;
use crate::cursor::{located, position_view, Cursor};
use crate::error::{Error, ErrorView};
use crate::sqlite3::error::{db_native_error, error_with_sql, with_sql_infix};
use crate::text::{has_nul, holds_nul, same_text};
use crate::value::{
    args_view, columns_view, Arg, ColumnMetaData, ColumnMetaDataView, ColumnType, ExecuteResult, Placeholder,
    PlaceholderView, Value, ValueView,
};

verus! {

/// The native call succeeded.
pub const SQLITE_OK: i32 = 0;

/// A step produced a row.
pub const SQLITE_ROW: i32 = 100;

/// A step finished the statement.
pub const SQLITE_DONE: i32 = 101;

/// Open for reading and writing.
pub const SQLITE_OPEN_READWRITE: i32 = 0x2;

/// Create the database if it does not exist.
pub const SQLITE_OPEN_CREATE: i32 = 0x4;

/// The name may be a `file:` URI.
pub const SQLITE_OPEN_URI: i32 = 0x40;

/// The connection is used from one thread at a time.
pub const SQLITE_OPEN_NOMUTEX: i32 = 0x8000;

/// The flags every connection is opened with.
pub const OPEN_FLAGS: i32 = SQLITE_OPEN_URI | SQLITE_OPEN_CREATE | SQLITE_OPEN_READWRITE
    | SQLITE_OPEN_NOMUTEX;

/// What a declared column type is read as, and its width when it has one.
pub open spec fn decltype_class(decltype: Seq<char>) -> (ColumnType, Option<u64>) {
    if decltype == "INT"@ || decltype == "INTEGER"@ || decltype == "TINYINT"@ || decltype
        == "SMALLINT"@ || decltype == "MEDIUMINT"@ || decltype == "BIGINT"@ || decltype
        == "UNSIGNED BIG INT"@ || decltype == "INT2"@ || decltype == "INT8"@ {
        (ColumnType::I64, Some(8u64))
    } else if decltype == "REAL"@ || decltype == "DOUBLE"@ || decltype == "DOUBLE PRECISION"@
        || decltype == "FLOAT"@ {
        (ColumnType::F64, Some(8u64))
    } else if decltype == "BLOB"@ {
        (ColumnType::Bytes, None)
    } else {
        (ColumnType::String, None)
    }
}

/// Maps the declared type of a column to the kind it is read as. Integer
/// types are I64 and reals F64, both eight wide; `BLOB` is Bytes; everything
/// else, the text types among it, is String.
pub fn colunm_decltype(decltype: &str) -> (class: (ColumnType, String, Option<u64>))
    ensures
        class.1@ == decltype@,
        (class.0, class.2) == decltype_class(decltype@),
{
    if same_text(decltype, "INT") || same_text(decltype, "INTEGER") || same_text(
        decltype,
        "TINYINT",
    ) || same_text(decltype, "SMALLINT") || same_text(decltype, "MEDIUMINT") || same_text(
        decltype,
        "BIGINT",
    ) || same_text(decltype, "UNSIGNED BIG INT") || same_text(decltype, "INT2") || same_text(
        decltype,
        "INT8",
    ) {
        (ColumnType::I64, decltype.to_owned(), Some(8))
    } else if same_text(decltype, "REAL") || same_text(decltype, "DOUBLE") || same_text(
        decltype,
        "DOUBLE PRECISION",
    ) || same_text(decltype, "FLOAT") {
        (ColumnType::F64, decltype.to_owned(), Some(8))
    } else if same_text(decltype, "BLOB") {
        (ColumnType::Bytes, decltype.to_owned(), None)
    } else {
        (ColumnType::String, decltype.to_owned(), None)
    }
}

/// Checks that `text` can be handed to the native library as a C string.
pub fn c_text(text: &str) -> (checked: Result<(), Error>)
    ensures
        match checked {
            Ok(()) => !holds_nul(text@),
            Err(e) => holds_nul(text@) && e@ == ErrorView::InteriorNul(text@),
        },
{
    if has_nul(text) {
        Err(Error::InteriorNul(text.to_owned()))
    } else {
        Ok(())
    }
}

/// Draws a random id with `uuid::Uuid::new_v4` and writes it out with the
/// `Display` of `uuid::Uuid`, which is the hyphenated lower-case form: 36
/// characters. Which id comes back is up to chance; nothing else is claimed.
#[verifier::external_body]
pub(crate) fn random_id() -> (id: String)
    ensures
        id@.len() == 36,
{
    uuid::Uuid::new_v4().to_string()
}

/// An open session: the id that stands for the native handle.
pub struct Connection {
    pub id: String,
}

/// A compiled statement: the id that stands for the native handle.
pub struct Statement {
    pub id: String,
}

/// A transaction on a connection, and whether it has been finished.
pub struct Transaction {
    conn: Connection,
    finished: bool,
    id: String,
}

/// A cursor over the rows of a statement.
pub struct Rows {
    cursor: Cursor,
    id: String,
}

/// One value to hand to the native library: the one-based slot and what goes
/// into it.
pub struct Binding {
    pub slot: i32,
    pub value: Value,
}

impl View for Binding {
    type V = (i32, ValueView);

    open spec fn view(&self) -> (i32, ValueView) {
        (self.slot, self.value@)
    }
}

/// The values of a list of bindings, in order.
pub open spec fn bindings_view(bindings: Seq<Binding>) -> Seq<(i32, ValueView)> {
    bindings.map_values(|b: Binding| b@)
}

/// The slot an argument goes to: its index, or, for a named one, its place
/// in the argument list, counted from one.
pub open spec fn slot_of(pos: PlaceholderView, ordinal: int) -> int {
    match pos {
        PlaceholderView::Index(index) => index as int,
        PlaceholderView::Name(_) => ordinal + 1,
    }
}

/// What is done for the argument that stands at `ordinal` in the list.
///
/// Null is not bound at all: every slot is null until something is bound to
/// it. A slot must fit the native library's integer. Text must hold no NUL.
pub open spec fn binding_of(arg: (PlaceholderView, ValueView), ordinal: int) -> Result<
    Option<(i32, ValueView)>,
    ErrorView,
> {
    let slot = slot_of(arg.0, ordinal);
    match arg.1 {
        ValueView::Null => Ok(None),
        value => if slot > i32::MAX {
            Err(ErrorView::OutOfRange(slot as u64))
        } else if value matches ValueView::String(text) && holds_nul(text) {
            Err(ErrorView::BindFailure(arg.0))
        } else {
            Ok(Some((slot as i32, value)))
        },
    }
}

/// The bindings for a list of arguments, in the order of the list, or the
/// error of the first argument that cannot be bound.
pub open spec fn planned(args: Seq<(PlaceholderView, ValueView)>) -> Result<
    Seq<(i32, ValueView)>,
    ErrorView,
>
    decreases args.len(),
{
    if args.len() == 0 {
        Ok(Seq::empty())
    } else {
        match planned(args.drop_last()) {
            Err(e) => Err(e),
            Ok(bindings) => match binding_of(args.last(), args.len() - 1) {
                Err(e) => Err(e),
                Ok(None) => Ok(bindings),
                Ok(Some(binding)) => Ok(bindings.push(binding)),
            },
        }
    }
}

/// The value of a plan: the bindings, or the error's value.
pub open spec fn plan_view(plan: Result<Vec<Binding>, Error>) -> Result<
    Seq<(i32, ValueView)>,
    ErrorView,
> {
    match plan {
        Ok(bindings) => Ok(bindings_view(bindings@)),
        Err(e) => Err(e@),
    }
}

/// What a step of a statement that should return no rows amounts to.
pub open spec fn executed(code: i32, last_insert_rowid: i64, changes: i32, errmsg: Seq<char>) -> Result<
    ExecuteResult,
    ErrorView,
> {
    if code == SQLITE_DONE {
        Ok(ExecuteResult { last_insert_id: last_insert_rowid as u64, raws_affected: changes as u64 })
    } else if code == SQLITE_ROW {
        Err(ErrorView::UnexpectedRows)
    } else {
        Err(ErrorView::DriverNative(code, errmsg))
    }
}

/// What a step of a cursor amounts to.
pub open spec fn stepped(code: i32, errmsg: Seq<char>) -> Result<bool, ErrorView> {
    if code == SQLITE_DONE {
        Ok(false)
    } else if code == SQLITE_ROW {
        Ok(true)
    } else {
        Err(ErrorView::DriverNative(code, errmsg))
    }
}

/// The description of the column at `index`, from its name and declared type.
pub open spec fn described(index: int, name: Seq<char>, decltype: Seq<char>) -> ColumnMetaDataView {
    ColumnMetaDataView {
        column_index: index as u64,
        column_name: name,
        column_decltype: decltype,
        column_decltype_len: decltype_class(decltype).1,
    }
}

impl Connection {
    /// What an attempt to open `name` amounts to. `code` is what the native
    /// open reported, `handle` names the native handle if one was made, and
    /// `errmsg` is the library's message for that handle.
    ///
    /// On any code but success the attempt failed, and the handle, if there
    /// is one, is to be closed by the caller.
    pub fn open(name: &str, code: i32, handle: Option<String>, errmsg: &str) -> (opened: Result<
        Connection,
        Error,
    >)
        ensures
            match opened {
                Ok(connection) => code == SQLITE_OK && handle == Some(connection.id),
                Err(e) => if code == SQLITE_OK {
                    handle is None && e@ == ErrorView::DriverNative(code, open_failure(name@))
                } else if handle is Some {
                    e@ == ErrorView::DriverNative(code, errmsg@)
                } else {
                    e@ == ErrorView::DriverNative(code, open_failure(name@))
                },
            },
    {
        match handle {
            Some(id) => {
                if code == SQLITE_OK {
                    Ok(Connection { id })
                } else {
                    Err(db_native_error(code, errmsg))
                }
            },
            None => {
                let mut message = "open sqlite ".to_owned();
                message.append(name);
                message.append(" failure");
                Err(Error::DriverNative(code, message))
            },
        }
    }

    /// What running `BEGIN` amounts to: a transaction under a fresh random
    /// id, not finished, or the native error.
    pub fn begin(&mut self, code: i32, errmsg: &str) -> (begun: Result<Transaction, Error>)
        ensures
            final(self).id == old(self).id,
            match begun {
                Ok(transaction) => {
                    &&& code == SQLITE_OK
                    &&& !transaction.finished()
                    &&& transaction.connection_id() == old(self).id@
                    &&& transaction.ident().len() == 36
                },
                Err(e) => code != SQLITE_OK && e@ == ErrorView::DriverNative(code, errmsg@),
            },
    {
        if code != SQLITE_OK {
            return Err(db_native_error(code, errmsg));
        }
        Ok(Transaction::started(Connection { id: self.id.clone() }, random_id()))
    }

    /// What compiling `query` amounts to. `handle` names the compiled
    /// statement; the library makes none for text that holds no statement.
    pub fn prepare(&mut self, query: &str, code: i32, handle: Option<String>, errmsg: &str) -> (prepared:
        Result<Statement, Error>)
        ensures
            final(self).id == old(self).id,
            compiled_view(prepared) == compiled(query@, code, handle, errmsg@),
    {
        compile(query, code, handle, errmsg)
    }
}

/// The message for an open that produced no handle.
pub open spec fn open_failure(name: Seq<char>) -> Seq<char> {
    "open sqlite "@ + name + " failure"@
}

/// What compiling `query` amounts to, whoever asked.
pub open spec fn compiled(query: Seq<char>, code: i32, handle: Option<String>, errmsg: Seq<char>) -> Result<
    String,
    ErrorView,
> {
    if code != SQLITE_OK {
        Err(ErrorView::DriverNative(code, errmsg + with_sql_infix() + query))
    } else {
        match handle {
            Some(id) => Ok(id),
            None => Err(ErrorView::InvalidSql(query)),
        }
    }
}

/// The value of a compiled statement: its id, or the error's value.
pub open spec fn compiled_view(prepared: Result<Statement, Error>) -> Result<String, ErrorView> {
    match prepared {
        Ok(statement) => Ok(statement.id),
        Err(e) => Err(e@),
    }
}

/// Says what compiling `query` amounts to.
fn compile(query: &str, code: i32, handle: Option<String>, errmsg: &str) -> (prepared: Result<
    Statement,
    Error,
>)
    ensures
        compiled_view(prepared) == compiled(query@, code, handle, errmsg@),
{
    if code != SQLITE_OK {
        return Err(error_with_sql(code, errmsg, query));
    }
    match handle {
        Some(id) => Ok(Statement { id }),
        None => Err(Error::InvalidSql(query.to_owned())),
    }
}

impl Statement {
    /// Plans the native bind calls for `args`, in their order. The caller
    /// clears all bindings, then makes the calls.
    pub fn bind_args(&self, args: &Vec<Arg>) -> (plan: Result<Vec<Binding>, Error>)
        ensures
            plan_view(plan) == planned(args_view(args@)),
    {
        let mut bindings: Vec<Binding> = Vec::new();
        let mut i: usize = 0;
        assert(args_view(args@).subrange(0, 0) =~= Seq::empty());
        assert(bindings_view(bindings@) =~= Seq::empty());
        while i < args.len()
            invariant
                i <= args.len(),
                planned(args_view(args@).subrange(0, i as int)) == Ok::<
                    Seq<(i32, ValueView)>,
                    ErrorView,
                >(bindings_view(bindings@)),
            decreases args.len() - i,
        {
            let ghost prefix = args_view(args@).subrange(0, i as int);
            let ghost next = args_view(args@).subrange(0, i + 1);
            proof {
                assert(next.drop_last() =~= prefix);
                assert(next.last() == args@[i as int]@);
                if planned(next) is Err {
                    lemma_planned_failure_stays(next, args_view(args@));
                }
                assert(args_view(args@).subrange(0, args@.len() as int) =~= args_view(args@));
            }
            let arg = &args[i];
            let slot: u64 = match &arg.pos {
                Placeholder::Index(index) => *index,
                Placeholder::Name(_) => i as u64 + 1,
            };
            match &arg.value {
                Value::Null => {},
                value => {
                    if slot > i32::MAX as u64 {
                        return Err(Error::OutOfRange(slot));
                    }
                    if let Value::String(text) = value {
                        if has_nul(text.as_str()) {
                            return Err(Error::BindFailure(arg.pos.duplicate()));
                        }
                    }
                    let ghost before = bindings@;
                    bindings.push(Binding { slot: slot as i32, value: value.duplicate() });
                    assert(bindings_view(bindings@) =~= bindings_view(before).push(
                        (slot as i32, value@),
                    ));
                },
            }
            i += 1;
        }
        assert(args_view(args@).subrange(0, args@.len() as int) =~= args_view(args@));
        Ok(bindings)
    }

    /// What a native bind call amounts to.
    pub fn bound(&self, code: i32, errmsg: &str) -> (outcome: Result<(), Error>)
        ensures
            match outcome {
                Ok(()) => code == SQLITE_OK,
                Err(e) => code != SQLITE_OK && e@ == ErrorView::DriverNative(code, errmsg@),
            },
    {
        if code != SQLITE_OK {
            Err(db_native_error(code, errmsg))
        } else {
            Ok(())
        }
    }

    /// What the step of a statement that should return no rows amounts to.
    /// A finished step reports the last inserted row id and the number of
    /// rows changed; a row is unexpected; any other code is a native error.
    pub fn execute(&mut self, code: i32, last_insert_rowid: i64, changes: i32, errmsg: &str) -> (outcome:
        Result<ExecuteResult, Error>)
        ensures
            final(self).id == old(self).id,
            match outcome {
                Ok(result) => executed(code, last_insert_rowid, changes, errmsg@) == Ok::<
                    ExecuteResult,
                    ErrorView,
                >(result),
                Err(e) => executed(code, last_insert_rowid, changes, errmsg@) == Err::<
                    ExecuteResult,
                    ErrorView,
                >(e@),
            },
    {
        if code == SQLITE_DONE {
            Ok(
                ExecuteResult {
                    last_insert_id: #[verifier::truncate]
                    (last_insert_rowid as u64),
                    raws_affected: #[verifier::truncate]
                    (changes as u64),
                },
            )
        } else if code == SQLITE_ROW {
            Err(Error::UnexpectedRows)
        } else {
            Err(db_native_error(code, errmsg))
        }
    }

    /// The number of parameter slots, from the count the library gave.
    pub fn num_input(&self, count: i32) -> (inputs: Option<u32>)
        ensures
            inputs == Some(count as u32),
    {
        Some(#[verifier::truncate] (count as u32))
    }

    /// A cursor over the rows of this statement, under a fresh random id. It
    /// stands before the first row and knows no columns yet.
    pub fn query(&mut self) -> (rows: Rows)
        ensures
            final(self).id == old(self).id,
            !rows.positioned(),
            rows.known_columns() is None,
            rows.ident().len() == 36,
    {
        Rows::over(random_id())
    }
}

/// Once a prefix of the arguments cannot be bound, the whole list cannot, for
/// the same reason.
pub proof fn lemma_planned_failure_stays(
    prefix: Seq<(PlaceholderView, ValueView)>,
    args: Seq<(PlaceholderView, ValueView)>,
)
    requires
        prefix.len() <= args.len(),
        prefix == args.subrange(0, prefix.len() as int),
        planned(prefix) is Err,
    ensures
        planned(args) == planned(prefix),
    decreases args.len(),
{
    if prefix.len() < args.len() {
        assert(args.drop_last().subrange(0, prefix.len() as int) =~= prefix);
        lemma_planned_failure_stays(prefix, args.drop_last());
    } else {
        assert(prefix =~= args);
    }
}

impl Transaction {
    /// Whether commit or rollback has been called.
    pub closed spec fn finished(&self) -> bool {
        self.finished
    }

    /// The id of the connection the transaction runs on.
    pub closed spec fn connection_id(&self) -> Seq<char> {
        self.conn.id@
    }

    /// The id of the transaction.
    pub closed spec fn ident(&self) -> Seq<char> {
        self.id@
    }

    /// The id of the transaction.
    pub fn id(&self) -> (id: &str)
        ensures
            id@ == self.ident(),
    {
        self.id.as_str()
    }

    /// A transaction that has just begun on `conn`, under `id`.
    pub fn started(conn: Connection, id: String) -> (transaction: Transaction)
        ensures
            !transaction.finished(),
            transaction.connection_id() == conn.id@,
            transaction.ident() == id@,
    {
        Transaction { conn, finished: false, id }
    }

    /// Whether the transaction still has to be rolled back when it goes away.
    pub fn is_finished(&self) -> (finished: bool)
        ensures
            finished == self.finished(),
    {
        self.finished
    }

    /// What running `COMMIT` amounts to. The transaction is finished from
    /// then on, whatever the code.
    pub fn commit(&mut self, code: i32, errmsg: &str) -> (outcome: Result<(), Error>)
        ensures
            final(self).finished(),
            final(self).connection_id() == old(self).connection_id(),
            final(self).ident() == old(self).ident(),
            match outcome {
                Ok(()) => code == SQLITE_OK,
                Err(e) => code != SQLITE_OK && e@ == ErrorView::DriverNative(
                    code,
                    errmsg@ + with_sql_infix() + "COMMIT"@,
                ),
            },
    {
        self.finished = true;
        if code != SQLITE_OK {
            Err(error_with_sql(code, errmsg, "COMMIT"))
        } else {
            Ok(())
        }
    }

    /// What compiling `query` on the transaction's connection amounts to.
    pub fn prepare(&mut self, query: &str, code: i32, handle: Option<String>, errmsg: &str) -> (prepared:
        Result<Statement, Error>)
        ensures
            final(self).finished() == old(self).finished(),
            final(self).connection_id() == old(self).connection_id(),
            final(self).ident() == old(self).ident(),
            compiled_view(prepared) == compiled(query@, code, handle, errmsg@),
    {
        compile(query, code, handle, errmsg)
    }

    /// What running `ROLLBACK` amounts to. The transaction is finished from
    /// then on, whatever the code.
    pub fn rollback(&mut self, code: i32, errmsg: &str) -> (outcome: Result<(), Error>)
        ensures
            final(self).finished(),
            final(self).connection_id() == old(self).connection_id(),
            final(self).ident() == old(self).ident(),
            match outcome {
                Ok(()) => code == SQLITE_OK,
                Err(e) => code != SQLITE_OK && e@ == ErrorView::DriverNative(
                    code,
                    errmsg@ + with_sql_infix() + "ROLLBACK"@,
                ),
            },
    {
        self.finished = true;
        if code != SQLITE_OK {
            Err(error_with_sql(code, errmsg, "ROLLBACK"))
        } else {
            Ok(())
        }
    }
}

impl Rows {
    /// Whether the cursor stands on a row.
    pub closed spec fn positioned(&self) -> bool {
        self.cursor.positioned()
    }

    /// The column descriptions, once they were built.
    pub closed spec fn known_columns(&self) -> Option<Seq<ColumnMetaDataView>> {
        self.cursor.known_columns()
    }

    /// The id of the cursor.
    pub closed spec fn ident(&self) -> Seq<char> {
        self.id@
    }

    /// The id of the cursor.
    pub fn id(&self) -> (id: &str)
        ensures
            id@ == self.ident(),
    {
        self.id.as_str()
    }

    /// A cursor before its first step, under `id`.
    pub fn over(id: String) -> (rows: Rows)
        ensures
            !rows.positioned(),
            rows.known_columns() is None,
            rows.ident() == id@,
    {
        Rows { cursor: Cursor::new(), id }
    }

    /// Whether the cursor stands on a row.
    pub fn has_next(&self) -> (positioned: bool)
        ensures
            positioned == self.positioned(),
    {
        self.cursor.has_next()
    }

    /// The column descriptions, if they were built before.
    pub fn cached(&self) -> (columns: Option<Vec<ColumnMetaData>>)
        ensures
            match columns {
                Some(c) => self.known_columns() == Some(columns_view(c@)),
                None => self.known_columns() is None,
            },
    {
        self.cursor.cached()
    }

    /// Builds the column descriptions from the name and the declared type of
    /// each column, keeps them and hands out a copy.
    pub fn colunms(&mut self, names: &Vec<String>, decltypes: &Vec<String>) -> (columns: Vec<
        ColumnMetaData,
    >)
        requires
            names.len() == decltypes.len(),
        ensures
            final(self).positioned() == old(self).positioned(),
            final(self).ident() == old(self).ident(),
            final(self).known_columns() == Some(columns_view(columns@)),
            columns.len() == names.len(),
            forall|i: int|
                0 <= i < names.len() ==> (#[trigger] columns[i])@ == described(
                    i,
                    names[i]@,
                    decltypes[i]@,
                ),
    {
        let mut built: Vec<ColumnMetaData> = Vec::new();
        let mut i: usize = 0;
        while i < names.len()
            invariant
                i <= names.len(),
                names.len() == decltypes.len(),
                built.len() == i,
                forall|j: int|
                    0 <= j < i ==> (#[trigger] built[j])@ == described(j, names[j]@, decltypes[j]@),
            decreases names.len() - i,
        {
            let class = colunm_decltype(decltypes[i].as_str());
            built.push(
                ColumnMetaData {
                    column_index: i as u64,
                    column_name: names[i].clone(),
                    column_decltype: class.1,
                    column_decltype_len: class.2,
                },
            );
            i += 1;
        }
        let ghost expected = columns_view(built@);
        match self.cursor.remember(Ok(built)) {
            Ok(columns) => {
                proof {
                    assert(columns_view(columns@) == expected);
                    assert forall|j: int| 0 <= j < names.len() implies (#[trigger] columns[j])@
                        == described(j, names[j]@, decltypes[j]@) by {
                        assert(columns_view(columns@)[j] == expected[j]);
                    }
                }
                columns
            },
            Err(_) => Vec::new(),
        }
    }

    /// Finds the column of the current row that `pos` points at, among the
    /// `columns` of the result set.
    pub fn get(&self, pos: &Placeholder, columns: &Vec<ColumnMetaData>) -> (found: Result<u64, Error>)
        ensures
            position_view(found) == located(self.positioned(), columns_view(columns@), pos@),
    {
        self.cursor.locate(pos, columns)
    }

    /// What a step amounts to. Only a step that produced a row leaves the
    /// cursor on one.
    pub fn next(&mut self, code: i32, errmsg: &str) -> (outcome: Result<bool, Error>)
        ensures
            final(self).ident() == old(self).ident(),
            final(self).known_columns() == old(self).known_columns(),
            final(self).positioned() == (code == SQLITE_ROW),
            match outcome {
                Ok(found) => stepped(code, errmsg@) == Ok::<bool, ErrorView>(found),
                Err(e) => stepped(code, errmsg@) == Err::<bool, ErrorView>(e@),
            },
    {
        let verdict = if code == SQLITE_DONE {
            Ok(false)
        } else if code == SQLITE_ROW {
            Ok(true)
        } else {
            Err(db_native_error(code, errmsg))
        };
        self.cursor.latch(verdict)
    }
}


} // verus!
