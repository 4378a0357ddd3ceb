//! The commands, each as a function from what was found on disk to what
//! is to be done there.

pub mod add;
pub mod init;
pub mod remove;
pub mod run;
pub mod setup;
pub mod update;

use crate::error::{ErrorKind, SopError};
use crate::text::owned;
use crate::utils::{file_exists, PathKind};
use vstd::prelude::*;
use vstd::string::*;

verus! {

/// The message of the error for a command that needs a manifest and finds
/// none.
pub open spec fn manifest_missing_message() -> Seq<char> {
    "sop.toml not found. Are you in a Soplang project directory? Run 'sop init' to create a new project."@
}

/// Every command but `init` starts here: it fails with `NotFound` unless
/// the manifest is a file.
pub fn require_manifest(manifest: PathKind) -> (checked: Result<(), SopError>)
    ensures
        checked is Ok <==> manifest == PathKind::File,
        checked matches Err(e) ==> e.kind == ErrorKind::NotFound && e.message@
            == manifest_missing_message(),
{
    if !file_exists(manifest) {
        return Err(
            SopError::new(
                ErrorKind::NotFound,
                owned(
                    "sop.toml not found. Are you in a Soplang project directory? Run 'sop init' to create a new project.",
                ),
            ),
        );
    }
    Ok(())
}

} // verus!
