//! The crate's error type.
use vstd::prelude::*;

verus! {

/// What kind of failure an [`Error`] reports.
#[derive(Debug, PartialEq, Eq, Clone, Copy)]
pub enum ErrorKind {
    /// The request or operation is not allowed.
    InvalidOperation,
    /// The failure can be recovered from, e.g. by retrying or skipping.
    Recoverable,
    /// The local system environment could not be changed as asked.
    SystemEnvironment,
    /// An outside service answered with this error status code.
    ExternalDependency(u16),
}

/// Error returned by registry operations.
#[derive(Debug)]
pub struct Error {
    pub kind: ErrorKind,
    pub message: String,
}

impl Error {
    /// An operation that is not allowed.
    pub fn invalid_operation(message: &str) -> (e: Error)
        ensures
            e.kind == ErrorKind::InvalidOperation,
            e.message@ == message@,
    {
        Error { kind: ErrorKind::InvalidOperation, message: String::from_str(message) }
    }

    /// A failure that can be recovered from.
    pub fn recoverable_error(message: &str) -> (e: Error)
        ensures
            e.kind == ErrorKind::Recoverable,
            e.message@ == message@,
    {
        Error { kind: ErrorKind::Recoverable, message: String::from_str(message) }
    }

    /// The system environment could not be configured.
    pub fn system_environment() -> (e: Error)
        ensures
            e.kind == ErrorKind::SystemEnvironment,
            e.message@ == Seq::<char>::empty(),
    {
        Error { kind: ErrorKind::SystemEnvironment, message: String::new() }
    }

    /// An outside service answered with the given error status code.
    pub fn external_dependency_with(status: u16) -> (e: Error)
        ensures
            e.kind == ErrorKind::ExternalDependency(status),
            e.message@ == Seq::<char>::empty(),
    {
        Error { kind: ErrorKind::ExternalDependency(status), message: String::new() }
    }

    /// True if this error reports an operation that is not allowed.
    pub fn is_invalid_operation(&self) -> (b: bool)
        ensures
            b == (self.kind == ErrorKind::InvalidOperation),
    {
        match self.kind {
            ErrorKind::InvalidOperation => true,
            _ => false,
        }
    }

    /// True if this error can be recovered from.
    pub fn is_recoverable(&self) -> (b: bool)
        ensures
            b == (self.kind == ErrorKind::Recoverable),
    {
        match self.kind {
            ErrorKind::Recoverable => true,
            _ => false,
        }
    }
}

} // verus!
