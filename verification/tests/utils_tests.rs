use sop::cli::{Cli, Commands, Dispatch};
use sop::error::{ErrorKind, SopError};
use sop::plan::Planned;
use sop::utils::{
    dir_exists, ensure_dir_exists, ensure_in_project, file_exists, format_error, format_info,
    format_success, get_sop_modules_path, get_sop_toml_path, get_src_path, is_soplang_project,
    PathKind,
};

#[test]
fn file_exists_only_for_files() {
    assert!(file_exists(PathKind::File));
    assert!(!file_exists(PathKind::Directory));
    assert!(!file_exists(PathKind::Missing));
    assert!(!file_exists(PathKind::Other));
}

#[test]
fn dir_exists_only_for_directories() {
    assert!(dir_exists(PathKind::Directory));
    assert!(!dir_exists(PathKind::File));
    assert!(!dir_exists(PathKind::Missing));
    assert!(!dir_exists(PathKind::Other));
}

#[test]
fn ensure_dir_exists_creates_only_where_nothing_is() {
    assert!(ensure_dir_exists(PathKind::Missing));
    assert!(!ensure_dir_exists(PathKind::Directory));
    assert!(!ensure_dir_exists(PathKind::File));
    assert!(!ensure_dir_exists(PathKind::Other));
}

#[test]
fn fixed_paths() {
    assert_eq!(get_sop_toml_path(), "sop.toml");
    assert_eq!(get_sop_modules_path(), "sop_modules");
    assert_eq!(get_src_path(), "src");
}

#[test]
fn a_project_has_a_manifest_file() {
    assert!(is_soplang_project(PathKind::File));
    assert!(!is_soplang_project(PathKind::Missing));
    assert!(!is_soplang_project(PathKind::Directory));
}

#[test]
fn ensure_in_project_fails_outside_a_project() {
    assert_eq!(ensure_in_project(PathKind::File), Ok(()));
    let err = ensure_in_project(PathKind::Missing).unwrap_err();
    assert_eq!(err.kind, ErrorKind::NotFound);
    assert_eq!(
        err.message,
        "Not in a Soplang project. Run 'sop init' to create a new project."
    );
    assert!(ensure_in_project(PathKind::Directory).is_err());
}

#[test]
fn message_lines() {
    assert_eq!(format_error("boom"), "Error: boom");
    assert_eq!(format_success("done"), "Success: done");
    assert_eq!(format_info("note"), "Info: note");
    assert_eq!(format_error(""), "Error: ");
}

#[test]
fn io_errors_carry_the_systems_words() {
    let err = SopError::io("permission denied");
    assert_eq!(err.kind, ErrorKind::IoError);
    assert_eq!(err.message, "permission denied");
    assert_eq!(err.to_text(), "permission denied");
    assert_eq!(SopError::new(ErrorKind::Aborted, "no".to_string()).kind, ErrorKind::Aborted);
}

#[test]
fn finish_reports_the_first_failure() {
    let planned: Planned<u8> = Planned { actions: Vec::new(), result: Ok(3) };
    assert_eq!(planned.finish(None), Ok(3));
    let planned: Planned<u8> = Planned { actions: Vec::new(), result: Ok(3) };
    let err = planned.finish(Some("disk full".to_string())).unwrap_err();
    assert_eq!(err.kind, ErrorKind::IoError);
    assert_eq!(err.message, "disk full");
    let failed: Planned<u8> = Planned {
        actions: Vec::new(),
        result: Err(SopError::new(ErrorKind::NotPresent, "gone".to_string())),
    };
    assert_eq!(failed.finish(None).unwrap_err().kind, ErrorKind::NotPresent);
}

#[test]
fn implemented_commands_are_dispatched() {
    let commands = vec![
        Commands::Init { yes: true },
        Commands::Setup,
        Commands::Add { package: "foo".to_string(), version: Some("1.2.3".to_string()) },
        Commands::Remove { package: "foo".to_string() },
        Commands::Run { script: None },
        Commands::Update { package: None },
    ];
    for command in commands {
        assert_eq!(Cli::new(Some(command.clone())).execute(), Dispatch::Run(command));
    }
}

#[test]
fn pending_commands_give_a_notice() {
    assert_eq!(
        Cli::new(Some(Commands::List)).execute(),
        Dispatch::Notice("Command 'list' not yet implemented".to_string())
    );
    assert_eq!(
        Cli::new(Some(Commands::Info { package: "foo".to_string() })).execute(),
        Dispatch::Notice("Command 'info' not yet implemented".to_string())
    );
    assert_eq!(
        Cli::new(Some(Commands::Clean)).execute(),
        Dispatch::Notice("Command 'clean' not yet implemented".to_string())
    );
    assert_eq!(
        Cli::new(Some(Commands::Check)).execute(),
        Dispatch::Notice("Command 'check' not yet implemented".to_string())
    );
}

#[test]
fn no_command_gives_a_notice() {
    assert_eq!(
        Cli::new(None).execute(),
        Dispatch::Notice(
            "No command specified. Run 'sop --help' for usage information.".to_string()
        )
    );
}
