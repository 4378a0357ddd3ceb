//! The command line as a value, and where each command leads.

use crate::text::owned;
use vstd::prelude::*;
use vstd::string::*;

verus! {

/// One command of the tool, with its arguments.
#[derive(Debug, PartialEq, Eq)]
#[allow(inconsistent_fields)]
pub enum Commands {
    /// Initialize a new project; `yes` skips the questions.
    Init { yes: bool },
    /// Install the dependencies of the manifest.
    Setup,
    /// Add a package to the project, at a version if one is given.
    Add { package: String, version: Option<String> },
    /// Remove a package from the project.
    Remove { package: String },
    /// Run a script; the project's entry if none is given.
    Run { script: Option<String> },
    /// Update one dependency; all of them if none is given.
    Update { package: Option<String> },
    /// List installed packages.
    List,
    /// Show information about a package.
    Info { package: String },
    /// Remove the module cache.
    Clean,
    /// Validate the manifest.
    Check,
}

fn clone_optional(text: &Option<String>) -> (copy: Option<String>)
    ensures
        copy == *text,
{
    match text {
        Some(t) => Some(t.clone()),
        None => None,
    }
}

impl Clone for Commands {
    fn clone(&self) -> (copy: Commands)
        ensures
            copy == *self,
    {
        match self {
            Commands::Init { yes } => Commands::Init { yes: *yes },
            Commands::Setup => Commands::Setup,
            Commands::Add { package, version } => Commands::Add {
                package: package.clone(),
                version: clone_optional(version),
            },
            Commands::Remove { package } => Commands::Remove { package: package.clone() },
            Commands::Run { script } => Commands::Run { script: clone_optional(script) },
            Commands::Update { package } => Commands::Update { package: clone_optional(package) },
            Commands::List => Commands::List,
            Commands::Info { package } => Commands::Info { package: package.clone() },
            Commands::Clean => Commands::Clean,
            Commands::Check => Commands::Check,
        }
    }
}

/// A parsed command line.
#[derive(Clone, Debug, PartialEq, Eq)]
pub struct Cli {
    command: Option<Commands>,
}

/// Where a command line leads.
#[derive(Clone, Debug, PartialEq, Eq)]
pub enum Dispatch {
    /// The command is to be carried out.
    Run(Commands),
    /// There is nothing to carry out; the line is to be printed.
    Notice(String),
}

/// The line for a command line without a command.
pub open spec fn no_command_notice() -> Seq<char> {
    "No command specified. Run 'sop --help' for usage information."@
}

/// The line for a command that the tool knows by name only, if `command`
/// is one.
pub open spec fn pending_notice(command: Commands) -> Option<Seq<char>> {
    match command {
        Commands::List => Some("Command 'list' not yet implemented"@),
        Commands::Info { .. } => Some("Command 'info' not yet implemented"@),
        Commands::Clean => Some("Command 'clean' not yet implemented"@),
        Commands::Check => Some("Command 'check' not yet implemented"@),
        _ => None,
    }
}

impl Cli {
    /// The command line that holds `command`.
    pub fn new(command: Option<Commands>) -> (cli: Cli)
        ensures
            cli.command() == command,
    {
        Cli { command }
    }

    /// The command, if one was given.
    pub closed spec fn command(&self) -> Option<Commands> {
        self.command
    }

    /// Where the command line leads: to the command, where it is one that
    /// the tool carries out, else to a line that says why nothing is done.
    pub fn execute(&self) -> (dispatch: Dispatch)
        ensures
            match self.command() {
                None => dispatch matches Dispatch::Notice(line) && line@ == no_command_notice(),
                Some(command) => match pending_notice(command) {
                    Some(notice) => dispatch matches Dispatch::Notice(line) && line@ == notice,
                    None => dispatch == Dispatch::Run(command),
                },
            },
    {
        match &self.command {
            None => Dispatch::Notice(
                owned("No command specified. Run 'sop --help' for usage information."),
            ),
            Some(Commands::List) => Dispatch::Notice(owned("Command 'list' not yet implemented")),
            Some(Commands::Info { .. }) => Dispatch::Notice(
                owned("Command 'info' not yet implemented"),
            ),
            Some(Commands::Clean) => Dispatch::Notice(
                owned("Command 'clean' not yet implemented"),
            ),
            Some(Commands::Check) => Dispatch::Notice(
                owned("Command 'check' not yet implemented"),
            ),
            Some(command) => Dispatch::Run(command.clone()),
        }
    }
}

} // verus!
