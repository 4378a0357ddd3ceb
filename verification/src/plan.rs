//! What a command hands back: the file system operations to carry out,
//! and how the command ends once they are done.

use crate::cache::FsAction;
use crate::error::{ErrorKind, SopError};
use vstd::prelude::*;
use vstd::string::*;

verus! {

/// The operations of a command, in the order in which they are to be
/// carried out, and the command's result. The operations come first: a
/// command that fails may have left some to do before its error shows.
#[derive(Debug, PartialEq, Eq)]
pub struct Planned<R> {
    pub actions: Vec<FsAction>,
    pub result: Result<R, SopError>,
}

impl<R> Planned<R> {
    /// How the command ends after its operations were attempted. The
    /// first operation that fails ends the command with `IoError` and
    /// the system's words; with none failed, the command's own result
    /// stands.
    pub fn finish(self, failure: Option<String>) -> (ended: Result<R, SopError>)
        ensures
            match failure {
                Some(detail) => ended matches Err(e) && e.kind == ErrorKind::IoError && e.message@
                    == detail@,
                None => ended == self.result,
            },
    {
        match failure {
            Some(detail) => Err(SopError::new(ErrorKind::IoError, detail)),
            None => self.result,
        }
    }
}

} // verus!
