//! Records on top of the connectivity core: how a table is described, and
//! how the columns of a record become the arguments of a statement.

pub mod col;
pub mod crud;
pub mod declare;
pub mod error;
pub mod insert;
pub mod rdbc;
pub mod schema;
pub mod serde;
pub mod value;
