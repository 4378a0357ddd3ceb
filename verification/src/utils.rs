//! Fixed locations of a project, and what the commands conclude from a
//! look at the file system.

use crate::error::{ErrorKind, SopError};
use vstd::prelude::*;
use vstd::string::*;

verus! {

/// What a path names at the moment it is looked up.
#[derive(Clone, Copy, Debug, PartialEq, Eq, Structural)]
pub enum PathKind {
    /// Nothing is there.
    Missing,
    /// A regular file.
    File,
    /// A directory.
    Directory,
    /// Something else: a device, a socket.
    Other,
}

/// Whether a file is at the path.
pub fn file_exists(kind: PathKind) -> (found: bool)
    ensures
        found == (kind == PathKind::File),
{
    match kind {
        PathKind::File => true,
        _ => false,
    }
}

/// Whether a directory is at the path.
pub fn dir_exists(kind: PathKind) -> (found: bool)
    ensures
        found == (kind == PathKind::Directory),
{
    match kind {
        PathKind::Directory => true,
        _ => false,
    }
}

/// Whether a directory has to be created at the path: only where nothing
/// is there yet.
pub fn ensure_dir_exists(kind: PathKind) -> (create: bool)
    ensures
        create == (kind == PathKind::Missing),
{
    match kind {
        PathKind::Missing => true,
        _ => false,
    }
}

/// The manifest's path, relative to the project root.
pub fn get_sop_toml_path() -> (path: String)
    ensures
        path@ == "sop.toml"@,
{
    "sop.toml".to_owned()
}

/// The module cache's path, relative to the project root.
pub fn get_sop_modules_path() -> (path: String)
    ensures
        path@ == "sop_modules"@,
{
    "sop_modules".to_owned()
}

/// The source directory's path, relative to the project root.
pub fn get_src_path() -> (path: String)
    ensures
        path@ == "src"@,
{
    "src".to_owned()
}

/// Whether the directory is a project: its manifest is a file.
pub fn is_soplang_project(manifest: PathKind) -> (inside: bool)
    ensures
        inside == (manifest == PathKind::File),
{
    file_exists(manifest)
}

/// The message of the error that `ensure_in_project` returns.
pub open spec fn not_in_project_message() -> Seq<char> {
    "Not in a Soplang project. Run 'sop init' to create a new project."@
}

/// Fails with `NotFound` unless the directory is a project.
pub fn ensure_in_project(manifest: PathKind) -> (checked: Result<(), SopError>)
    ensures
        checked is Ok <==> manifest == PathKind::File,
        checked matches Err(e) ==> e.kind == ErrorKind::NotFound && e.message@
            == not_in_project_message(),
{
    if !is_soplang_project(manifest) {
        return Err(
            SopError::new(
                ErrorKind::NotFound,
                "Not in a Soplang project. Run 'sop init' to create a new project.".to_owned(),
            ),
        );
    }
    Ok(())
}

/// `msg` as an error line.
pub fn format_error(msg: &str) -> (line: String)
    ensures
        line@ == "Error: "@ + msg@,
{
    let mut line = "Error: ".to_owned();
    line.append(msg);
    line
}

/// `msg` as a success line.
pub fn format_success(msg: &str) -> (line: String)
    ensures
        line@ == "Success: "@ + msg@,
{
    let mut line = "Success: ".to_owned();
    line.append(msg);
    line
}

/// `msg` as an information line.
pub fn format_info(msg: &str) -> (line: String)
    ensures
        line@ == "Info: "@ + msg@,
{
    let mut line = "Info: ".to_owned();
    line.append(msg);
    line
}

} // verus!
