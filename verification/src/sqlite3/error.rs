//! Errors that carry what the native library reported.

use vstd::prelude::*;
use crate::error::{Error, ErrorView};

verus! {

/// The errors of the reference driver are those of the crate.
pub type Sqlite3Error = Error;

/// What stands between the library's message and the statement text.
pub open spec fn with_sql_infix() -> Seq<char> {
    ", with SQL "@
}

/// A native failure with its code and message.
pub fn native_error(code: i32, message: String) -> (error: Error)
    ensures
        error == Error::DriverNative(code, message),
{
    Error::DriverNative(code, message)
}

/// A native failure on a connection: the code, and the message the library
/// holds for that connection.
pub fn db_native_error(code: i32, errmsg: &str) -> (error: Error)
    ensures
        error@ == ErrorView::DriverNative(code, errmsg@),
{
    native_error(code, errmsg.to_owned())
}

/// A native failure while running `sql`: the library's message, followed by
/// the statement text.
pub fn error_with_sql(code: i32, errmsg: &str, sql: &str) -> (error: Error)
    ensures
        error@ == ErrorView::DriverNative(code, errmsg@ + with_sql_infix() + sql@),
{
    let mut message = errmsg.to_owned();
    message.append(", with SQL ");
    message.append(sql);
    native_error(code, message)
}

} // verus!
