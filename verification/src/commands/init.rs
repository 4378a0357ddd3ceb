//! `init`: the decisions of project scaffolding. The prompts and the
//! work on disk are the caller's.

use crate::cache::{plan, Action, FsAction};
use crate::dependencies::DependencyMap;
use crate::error::{ErrorKind, SopError};
use crate::text::{owned, same_text};
use crate::toml_parser::{new_manifest, Manifest, Project, ProjectConfig, SopToml};
use crate::utils::{file_exists, PathKind};
use vstd::prelude::*;
use vstd::string::*;

verus! {

/// The message for a directory that holds files when no question may be
/// asked.
pub open spec fn not_empty_unattended_message() -> Seq<char> {
    "Current directory is not empty. Cannot initialize with -y flag. Use interactive mode or empty the directory."@
}

/// The message for a directory that holds files when the user chose it.
pub open spec fn not_empty_chosen_message() -> Seq<char> {
    "Current directory is not empty. Please enter a project name or empty the directory."@
}

/// The message for a user who declined.
pub open spec fn aborted_message() -> Seq<char> {
    "Initialization aborted."@
}

/// The message for a directory without a name.
pub open spec fn unnamed_directory_message() -> Seq<char> {
    "Unable to determine current directory name"@
}

/// The program that a new project starts with.
pub open spec fn main_file_text() -> Seq<char> {
    "// This is the main entry point for your Soplang project\n\nhowl main() {\n    qor('Hello World!');\n}\n"@
}

/// Refuses to go on without questions in a directory that holds files.
pub fn check_directory(yes: bool, is_empty: bool) -> (checked: Result<(), SopError>)
    ensures
        checked is Err <==> yes && !is_empty,
        checked matches Err(e) ==> e.kind == ErrorKind::NotEmpty && e.message@
            == not_empty_unattended_message(),
{
    if !is_empty && yes {
        return Err(
            SopError::new(
                ErrorKind::NotEmpty,
                owned(
                    "Current directory is not empty. Cannot initialize with -y flag. Use interactive mode or empty the directory.",
                ),
            ),
        );
    }
    Ok(())
}

/// The name of the current directory, which a project created in it
/// takes.
pub fn directory_name(name: Option<String>) -> (named: Result<String, SopError>)
    ensures
        match name {
            Some(n) => named matches Ok(m) && m@ == n@,
            None => named matches Err(e) && e.kind == ErrorKind::NotFound && e.message@
                == unnamed_directory_message(),
        },
{
    match name {
        Some(n) => Ok(n),
        None => Err(
            SopError::new(
                ErrorKind::NotFound,
                owned("Unable to determine current directory name"),
            ),
        ),
    }
}

/// Where a project is created.
#[derive(Clone, Debug, PartialEq, Eq)]
pub enum Location {
    /// In the current directory.
    CurrentDir,
    /// In a new directory of that name below the current one.
    NewDir { name: String },
}

/// Whether the answer to the question for a project name stands for the
/// current directory.
pub open spec fn means_current_dir(input: Seq<char>) -> bool {
    input == "."@ || input == "./"@
}

/// Where the project goes for the name the user entered: `.` and `./`
/// stand for the current directory, which has to be empty; anything else
/// names a new directory.
pub fn choose_location(input: &str, is_empty: bool) -> (chosen: Result<Location, SopError>)
    ensures
        chosen is Err <==> means_current_dir(input@) && !is_empty,
        chosen matches Err(e) ==> e.kind == ErrorKind::NotEmpty && e.message@
            == not_empty_chosen_message(),
        chosen matches Ok(location) ==> if means_current_dir(input@) {
            location == Location::CurrentDir
        } else {
            location matches Location::NewDir { name } && name@ == input@
        },
{
    if same_text(input, ".") || same_text(input, "./") {
        if !is_empty {
            return Err(
                SopError::new(
                    ErrorKind::NotEmpty,
                    owned(
                        "Current directory is not empty. Please enter a project name or empty the directory.",
                    ),
                ),
            );
        }
        Ok(Location::CurrentDir)
    } else {
        Ok(Location::NewDir { name: owned(input) })
    }
}

/// Whether the user has to agree before a manifest is written: only
/// where one is there already and questions may be asked.
pub fn must_confirm_overwrite(yes: bool, manifest: PathKind) -> (ask: bool)
    ensures
        ask == (manifest == PathKind::File && !yes),
{
    file_exists(manifest) && !yes
}

/// Ends the command with `Aborted` unless the user agreed.
pub fn confirm(agreed: bool) -> (confirmed: Result<(), SopError>)
    ensures
        confirmed is Ok <==> agreed,
        confirmed matches Err(e) ==> e.kind == ErrorKind::Aborted && e.message@
            == aborted_message(),
{
    if !agreed {
        return Err(SopError::new(ErrorKind::Aborted, owned("Initialization aborted.")));
    }
    Ok(())
}

/// The manifest of a project created without questions: experimental,
/// version `1.0.0`, entry `src/main.so`, no dependencies.
pub fn create_default_project(project_name: &str) -> (config: SopToml)
    ensures
        config@ == new_manifest(project_name@, "experimental"@),
{
    let config = SopToml {
        project: ProjectConfig {
            name: owned(project_name),
            version: owned("1.0.0"),
            status: owned("experimental"),
            description: String::new(),
            license: String::new(),
            author: String::new(),
            repository: String::new(),
            homepage: String::new(),
            entry: owned("src/main.so"),
            keywords: Vec::new(),
            categories: Vec::new(),
        },
        dependencies: Some(DependencyMap::new()),
    };
    assert(config@.project.keywords =~= Seq::empty());
    assert(config@.project.categories =~= Seq::empty());
    config
}

/// What the user answered to the questions about a new project.
#[derive(Clone, Debug, PartialEq, Eq)]
pub struct ProjectAnswers {
    pub version: String,
    pub description: String,
    pub license: String,
    pub author: String,
    pub repository: String,
    pub homepage: String,
}

/// The manifest that the answers describe: they are taken as given, but
/// for an empty version, which becomes `1.0.0`. The project is
/// experimental, its entry is `src/main.so`, and it has no dependencies.
pub open spec fn answered_manifest(name: Seq<char>, answers: ProjectAnswers) -> Manifest {
    Manifest {
        project: Project {
            name,
            version: if answers.version@.len() == 0 {
                "1.0.0"@
            } else {
                answers.version@
            },
            status: "experimental"@,
            description: answers.description@,
            license: answers.license@,
            author: answers.author@,
            repository: answers.repository@,
            homepage: answers.homepage@,
            entry: "src/main.so"@,
            keywords: Seq::empty(),
            categories: Seq::empty(),
        },
        dependencies: Some(Seq::empty()),
    }
}

/// The manifest of a project created from the user's answers.
pub fn create_interactive_project(default_name: &str, answers: ProjectAnswers) -> (config:
    SopToml)
    ensures
        config@ == answered_manifest(default_name@, answers),
{
    let ProjectAnswers { version, description, license, author, repository, homepage } = answers;
    let version = if version.as_str().unicode_len() == 0 {
        owned("1.0.0")
    } else {
        version
    };
    let config = SopToml {
        project: ProjectConfig {
            name: owned(default_name),
            version,
            status: owned("experimental"),
            description,
            license,
            author,
            repository,
            homepage,
            entry: owned("src/main.so"),
            keywords: Vec::new(),
            categories: Vec::new(),
        },
        dependencies: Some(DependencyMap::new()),
    };
    assert(config@.project.keywords =~= Seq::empty());
    assert(config@.project.categories =~= Seq::empty());
    config
}

/// The program that a new project starts with.
pub fn create_main_file() -> (content: String)
    ensures
        content@ == main_file_text(),
{
    owned(
        "// This is the main entry point for your Soplang project\n\nhowl main() {\n    qor('Hello World!');\n}\n",
    )
}

/// The operations that lay a project out: the source directory, the
/// manifest, the first program.
pub open spec fn init_plan() -> Seq<Action> {
    seq![
        Action::EnsureSourceDir,
        Action::WriteManifest,
        Action::WriteMainFile { content: main_file_text() },
    ]
}

/// What `init` lays out.
#[derive(Clone, Debug, PartialEq, Eq)]
pub struct InitReport {
    /// The manifest to write.
    pub config: SopToml,
    pub actions: Vec<FsAction>,
}

/// Lays out a project of the given name: with the user's answers where
/// there are any, else with the defaults.
pub fn execute(project_name: &str, answers: Option<ProjectAnswers>) -> (report: InitReport)
    ensures
        report.config@ == match answers {
            Some(given) => answered_manifest(project_name@, given),
            None => new_manifest(project_name@, "experimental"@),
        },
        plan(report.actions@) == init_plan(),
{
    let config = match answers {
        Some(given) => create_interactive_project(project_name, given),
        None => create_default_project(project_name),
    };
    let mut actions: Vec<FsAction> = Vec::new();
    actions.push(FsAction::EnsureSourceDir);
    actions.push(FsAction::WriteManifest);
    actions.push(FsAction::WriteMainFile { content: create_main_file() });
    assert(plan(actions@) =~= init_plan());
    InitReport { config, actions }
}

} // verus!
