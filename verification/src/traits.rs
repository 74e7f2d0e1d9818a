//! The error type of the user-facing operations: what went wrong, and a detail
//! message.
use vstd::prelude::*;
use vstd::string::*;

verus! {

#[derive(Debug, Clone, Copy, PartialEq, Eq, Structural)]
pub enum ErrorInner {
    FailedToCreateFileOrDir,
    FailedToReadFileOrDir,
    FailedToWriteFileOrDir,
    FileOrDirNotFound,
    FiledOrDirAlreadyExists,
    IOError,
    InstanceNotFound,
    InternalError,
    MalformedFile,
    MalformedRequest,
    NotFound,
    PermissionDenied,
    Unauthorized,
    UnsupportedOperation,
    UserNotFound,
    UsernameAlreadyExists,
    VersionNotFound,
}

#[derive(Debug, Clone)]
pub struct Error {
    pub inner: ErrorInner,
    pub detail: String,
}

impl Error {
    /// An error of the given kind with the given detail.
    pub fn new(inner: ErrorInner, detail: &str) -> (e: Error)
        ensures
            e.inner == inner,
            e.detail@ == detail@,
    {
        Error { inner, detail: String::from_str(detail) }
    }
}

} // verus!
