//! The one error type of the library: a kind for the command layer to
//! branch on, and a message for the user.

use vstd::prelude::*;
use vstd::string::*;

verus! {

/// What went wrong.
#[derive(Clone, Copy, Debug, PartialEq, Eq, Structural)]
pub enum ErrorKind {
    /// The manifest or a script is not where it was looked for.
    NotFound,
    /// The manifest's text does not follow the schema.
    ParseError,
    /// The package to add is already a dependency.
    AlreadyPresent,
    /// The package to remove or update is not a dependency.
    NotPresent,
    /// The file system refused an operation.
    IoError,
    /// A project cannot be created in a directory that holds files.
    NotEmpty,
    /// The user declined to go on.
    Aborted,
}

/// A failed operation: exactly one kind, and a message for the user.
#[derive(Clone, Debug, PartialEq, Eq)]
pub struct SopError {
    pub kind: ErrorKind,
    pub message: String,
}

impl SopError {
    /// An error of the given kind with the given message.
    pub fn new(kind: ErrorKind, message: String) -> (err: SopError)
        ensures
            err.kind == kind,
            err.message == message,
    {
        SopError { kind, message }
    }

    /// The failure of a file system operation, with the system's own words.
    pub fn io(detail: &str) -> (err: SopError)
        ensures
            err.kind == ErrorKind::IoError,
            err.message@ == detail@,
    {
        SopError { kind: ErrorKind::IoError, message: detail.to_owned() }
    }

    /// The message, as the command layer prints it after `Error: `.
    pub fn to_text(&self) -> (text: String)
        ensures
            text@ == self.message@,
    {
        self.message.clone()
    }
}

} // verus!
