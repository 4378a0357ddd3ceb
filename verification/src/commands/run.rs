//! `run`: finds the script to hand to the interpreter.

use crate::error::{ErrorKind, SopError};
use crate::text::owned;
use crate::toml_parser::SopToml;
use crate::utils::{file_exists, PathKind};
use vstd::prelude::*;
use vstd::string::*;

verus! {

/// The script that `run` is about: the one named, else the project's
/// entry.
pub open spec fn chosen_script(config: SopToml, script_path: Option<String>) -> Seq<char> {
    match script_path {
        Some(path) => path@,
        None => config.project.entry@,
    }
}

/// The message of the error for a script that is no file.
pub open spec fn script_not_found_message(script: Seq<char>) -> Seq<char> {
    "Script file not found: "@ + script
}

/// The path of the script to run: the one named, else the project's
/// entry.
pub fn script_to_run(config: &SopToml, script_path: &Option<String>) -> (script: String)
    ensures
        script@ == chosen_script(*config, *script_path),
{
    match script_path {
        Some(path) => path.clone(),
        None => config.project.entry.clone(),
    }
}

/// Hands the script on as it is if a file is at its path, and fails with
/// `NotFound` if not.
pub fn execute(script: String, found: PathKind) -> (located: Result<String, SopError>)
    ensures
        located is Ok <==> found == PathKind::File,
        located matches Ok(path) ==> path@ == script@,
        located matches Err(e) ==> e.kind == ErrorKind::NotFound && e.message@
            == script_not_found_message(script@),
{
    if !file_exists(found) {
        let mut message = owned("Script file not found: ");
        message.append(script.as_str());
        return Err(SopError::new(ErrorKind::NotFound, message));
    }
    Ok(script)
}

} // verus!
