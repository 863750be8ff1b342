//! A relational-database connectivity core: a driver registry, a connection
//! pool with checkout and return, statement / cursor / transaction handles,
//! and the worker-side bookkeeping of a driver that funnels every native call
//! through one place.
//!
//! Every function in this crate is synchronous and owns its state outright;
//! sharing, scheduling and the native engine itself live with the caller.

pub mod cursor;
pub mod database;
pub mod datasource;
pub mod driver;
pub mod error;
pub mod orm;
pub mod pool;
pub mod rows;
pub mod sqlite3;
pub mod statement;
pub mod table;
pub mod text;
pub mod transaction;
pub mod value;
pub mod waker;

pub use database::Database;
pub use datasource::DataSource;
pub use error::Error;
pub use pool::ConnectionPool;
pub use rows::Rows;
pub use statement::Statement;
pub use transaction::{Transaction, TxState};
pub use value::{Arg, ColumnMetaData, ColumnType, ExecuteResult, Placeholder, Value};
pub use waker::Waker;
