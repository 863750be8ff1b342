//! What can go wrong while a record is written out or read back.

use vstd::prelude::*;

verus! {

/// An error of a serializer or deserializer.
#[derive(Debug, PartialEq, Eq)]
pub enum SerdeError {
    /// Whatever the data structure had to say.
    Message(String),
    /// A byte string was not marked as one.
    SerdeBytes,
}

impl SerdeError {
    /// An error that carries `msg`.
    pub fn custom(msg: &str) -> (error: SerdeError)
        ensures
            error matches SerdeError::Message(text) && text@ == msg@,
    {
        SerdeError::Message(msg.to_owned())
    }
}

} // verus!
