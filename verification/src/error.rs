//! The error type of the instance-level operations: a kind, which decides how
//! the error is reported, and a human readable message.
use vstd::prelude::*;
use vstd::string::*;

verus! {

#[derive(Debug, Clone, Copy, PartialEq, Eq, Structural)]
pub enum ErrorKind {
    NotFound,
    UnsupportedOperation,
    BadRequest,
    Internal,
}

#[derive(Debug, Clone)]
pub struct Error {
    pub kind: ErrorKind,
    pub source: String,
}

impl Error {
    /// An error of the given kind with the given message.
    pub fn new(kind: ErrorKind, message: &str) -> (e: Error)
        ensures
            e.kind == kind,
            e.source@ == message@,
    {
        Error { kind, source: String::from_str(message) }
    }
}

} // verus!
