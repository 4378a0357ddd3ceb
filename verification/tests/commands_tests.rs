use sop::cache::{FsAction, ModuleCache};
use sop::commands::add;
use sop::commands::init;
use sop::commands::remove;
use sop::commands::run;
use sop::commands::setup;
use sop::commands::update;
use sop::dependencies::{Dependency, DependencyMap};
use sop::error::ErrorKind;
use sop::installer::InstallOutcome;
use sop::toml_parser::{create_default_config, SopToml};
use sop::utils::PathKind;
use sop::version::{FixedOracle, RandomOracle};

fn dep(name: &str, version: &str) -> Dependency {
    Dependency { name: name.to_string(), version: version.to_string() }
}

fn project(deps: &[(&str, &str)]) -> SopToml {
    let mut config = create_default_config("demo");
    let mut map = DependencyMap::new();
    for (name, version) in deps {
        map.insert(name.to_string(), version.to_string());
    }
    config.dependencies = Some(map);
    config
}

fn entries(config: &SopToml) -> Vec<Dependency> {
    match &config.dependencies {
        Some(map) => map.to_vec(),
        None => Vec::new(),
    }
}

fn cache_of(names: &[&str]) -> ModuleCache {
    let mut cache = ModuleCache::new();
    for name in names {
        cache.insert(name);
    }
    cache
}

fn install_actions(package: &str, version: &str) -> Vec<FsAction> {
    vec![
        FsAction::CreatePackageDir { package: package.to_string() },
        FsAction::WriteMetadata {
            package: package.to_string(),
            content: format!(
                "[package]\nname = \"{}\"\nversion = \"{}\"\ndescription = \"A Soplang package\"\n",
                package, version
            ),
        },
        FsAction::WriteLibrary {
            package: package.to_string(),
            content: format!(
                "// This is a placeholder for the {} library\n\nexport fn hello() {{\n    println(\"Hello from {}!\");\n}}\n",
                package, package
            ),
        },
    ]
}

#[test]
fn add_records_the_version_asked_for() {
    let mut config = project(&[("bar", "1.2.3")]);
    let mut cache = cache_of(&["bar"]);
    let added = add::execute(&mut config, &mut cache, "foo", &Some("2.5.0".to_string()));
    let report = added.result.unwrap();
    assert_eq!(report.specifier, "2.5.0");
    assert_eq!(report.version, "2.5.0");
    assert_eq!(report.outcome, InstallOutcome::Installed);
    assert_eq!(entries(&config), vec![dep("bar", "1.2.3"), dep("foo", "2.5.0")]);
    let mut expected = vec![FsAction::WriteManifest, FsAction::EnsureModulesDir];
    expected.extend(install_actions("foo", "2.5.0"));
    assert_eq!(added.actions, expected);
    assert!(cache.contains("foo"));
    assert!(cache.contains("bar"));
}

#[test]
fn add_fails_for_a_package_that_is_present() {
    let mut config = project(&[("foo", "1.0.0")]);
    let before = config.clone();
    let mut cache = ModuleCache::new();
    let added = add::execute(&mut config, &mut cache, "foo", &Some("2.0.0".to_string()));
    let err = added.result.unwrap_err();
    assert_eq!(err.kind, ErrorKind::AlreadyPresent);
    assert_eq!(err.message, "Package 'foo' is already in your dependencies.");
    assert_eq!(added.actions, Vec::new());
    assert_eq!(config, before);
    assert_eq!(cache, ModuleCache::new());
}

#[test]
fn add_makes_the_dependencies_table_where_there_is_none() {
    let mut config = create_default_config("demo");
    config.dependencies = None;
    let mut cache = ModuleCache::new();
    let added = add::execute(&mut config, &mut cache, "foo", &None);
    assert!(added.result.is_ok());
    assert_eq!(entries(&config), vec![dep("foo", "latest")]);
}

#[test]
fn add_of_an_installed_package_writes_the_manifest_only() {
    let mut config = project(&[]);
    let mut cache = cache_of(&["foo"]);
    let added = add::execute(&mut config, &mut cache, "foo", &None);
    assert_eq!(added.result.unwrap().outcome, InstallOutcome::AlreadyInstalled);
    assert_eq!(added.actions, vec![FsAction::WriteManifest, FsAction::EnsureModulesDir]);
}

#[test]
fn remove_fails_for_a_package_that_is_absent() {
    let mut config = project(&[("foo", "1.0.0")]);
    let before = config.clone();
    let mut cache = cache_of(&["foo", "bar"]);
    let removed = remove::execute(&mut config, &mut cache, "bar");
    let err = removed.result.unwrap_err();
    assert_eq!(err.kind, ErrorKind::NotPresent);
    assert_eq!(err.message, "Package 'bar' not found in your dependencies.");
    assert_eq!(removed.actions, Vec::new());
    assert_eq!(config, before);
    assert_eq!(cache, cache_of(&["foo", "bar"]));
}

#[test]
fn remove_fails_without_a_dependencies_table() {
    let mut config = create_default_config("demo");
    config.dependencies = None;
    let mut cache = ModuleCache::new();
    let removed = remove::execute(&mut config, &mut cache, "foo");
    let err = removed.result.unwrap_err();
    assert_eq!(err.kind, ErrorKind::NotPresent);
    assert_eq!(err.message, "No dependencies found in sop.toml.");
    assert_eq!(config.dependencies, None);
}

#[test]
fn remove_deletes_the_directory() {
    let mut config = project(&[("a", "1.0.0"), ("foo", "1.0.0"), ("z", "latest")]);
    let mut cache = cache_of(&["a", "foo"]);
    let removed = remove::execute(&mut config, &mut cache, "foo");
    let report = removed.result.unwrap();
    assert_eq!(report.specifier, "1.0.0");
    assert!(report.directory_found);
    assert_eq!(
        removed.actions,
        vec![FsAction::WriteManifest, FsAction::RemovePackageDir { package: "foo".to_string() }]
    );
    assert_eq!(entries(&config), vec![dep("a", "1.0.0"), dep("z", "latest")]);
    assert_eq!(cache, cache_of(&["a"]));
}

#[test]
fn remove_tolerates_a_missing_directory() {
    let mut config = project(&[("foo", "1.0.0")]);
    let mut cache = ModuleCache::new();
    let removed = remove::execute(&mut config, &mut cache, "foo");
    let report = removed.result.unwrap();
    assert!(!report.directory_found);
    assert_eq!(removed.actions, vec![FsAction::WriteManifest]);
    assert_eq!(entries(&config), Vec::new());
}

#[test]
fn add_then_remove_restores_the_dependencies() {
    let mut config = project(&[("a", "1.0.0"), ("b", "latest")]);
    let before = config.clone();
    let mut cache = cache_of(&["a"]);
    assert!(add::execute(&mut config, &mut cache, "foo", &None).result.is_ok());
    assert!(cache.contains("foo"));
    let removed = remove::execute(&mut config, &mut cache, "foo");
    assert!(removed.result.is_ok());
    assert_eq!(config, before);
    assert!(!cache.contains("foo"));
    assert_eq!(cache, cache_of(&["a"]));
    assert!(removed
        .actions
        .contains(&FsAction::RemovePackageDir { package: "foo".to_string() }));
}

#[test]
fn setup_without_dependencies_is_reported_as_such() {
    for config in [project(&[]), {
        let mut c = project(&[]);
        c.dependencies = None;
        c
    }] {
        let mut cache = cache_of(&["stray"]);
        let done = setup::execute(&config, &mut cache);
        let report = done.result.unwrap();
        assert_eq!(report.project, "demo");
        assert_eq!(report.installs, Vec::new());
        assert_eq!(done.actions, vec![FsAction::EnsureModulesDir]);
        assert_eq!(cache, cache_of(&["stray"]));
    }
}

#[test]
fn setup_installs_what_is_missing_in_order() {
    let config = project(&[("c", "3.0.0"), ("a", "latest"), ("b", "1.2.3")]);
    let before = config.clone();
    let mut cache = cache_of(&["a"]);
    let done = setup::execute(&config, &mut cache);
    let report = done.result.unwrap();
    assert_eq!(
        report.installs,
        vec![
            setup::PackageInstall {
                package: "c".to_string(),
                version: "3.0.0".to_string(),
                outcome: InstallOutcome::Installed
            },
            setup::PackageInstall {
                package: "a".to_string(),
                version: "1.0.0".to_string(),
                outcome: InstallOutcome::AlreadyInstalled
            },
            setup::PackageInstall {
                package: "b".to_string(),
                version: "1.2.3".to_string(),
                outcome: InstallOutcome::Installed
            },
        ]
    );
    let mut expected = vec![FsAction::EnsureModulesDir];
    expected.extend(install_actions("c", "3.0.0"));
    expected.extend(install_actions("b", "1.2.3"));
    assert_eq!(done.actions, expected);
    assert!(cache.contains("a") && cache.contains("b") && cache.contains("c"));
    assert_eq!(config, before);
}

#[test]
fn setup_twice_does_nothing_the_second_time() {
    let config = project(&[("a", "latest"), ("b", "1.2.3")]);
    let mut cache = ModuleCache::new();
    setup::execute(&config, &mut cache);
    let again = setup::execute(&config, &mut cache);
    assert_eq!(again.actions, vec![FsAction::EnsureModulesDir]);
    assert!(again
        .result
        .unwrap()
        .installs
        .iter()
        .all(|line| line.outcome == InstallOutcome::AlreadyInstalled));
}

#[test]
fn update_without_dependencies_does_nothing() {
    for package in [None, Some("foo".to_string())] {
        let mut config = project(&[]);
        let mut cache = ModuleCache::new();
        let updated = update::execute_with(&mut config, &mut cache, &package, &vec![true]);
        let report = updated.result.unwrap();
        assert_eq!(report.lines, Vec::new());
        assert_eq!(report.updated, 0);
        assert_eq!(updated.actions, Vec::new());
        assert_eq!(config, project(&[]));
    }
    let mut config = create_default_config("demo");
    config.dependencies = None;
    let mut cache = ModuleCache::new();
    let updated = update::execute_with(&mut config, &mut cache, &None, &Vec::new());
    assert_eq!(updated.actions, Vec::new());
    assert_eq!(config.dependencies, None);
    assert!(updated.result.is_ok());
}

#[test]
fn update_of_an_absent_package_fails_after_the_cache_directory() {
    let mut config = project(&[("foo", "1.0.0")]);
    let before = config.clone();
    let mut cache = ModuleCache::new();
    let updated =
        update::execute_with(&mut config, &mut cache, &Some("bar".to_string()), &vec![true]);
    let err = updated.result.unwrap_err();
    assert_eq!(err.kind, ErrorKind::NotPresent);
    assert_eq!(err.message, "Package 'bar' not found in your dependencies.");
    assert_eq!(updated.actions, vec![FsAction::EnsureModulesDir]);
    assert_eq!(config, before);
}

#[test]
fn update_all_with_given_answers() {
    let mut config =
        project(&[("a", "1.0.0"), ("b", "latest"), ("c", "2.3.4"), ("d", "oops"), ("e", "1.0.0")]);
    let mut cache = cache_of(&["a", "b", "c"]);
    let updated = update::execute_with(
        &mut config,
        &mut cache,
        &None,
        &vec![true, false, false, false, false],
    );
    let report = updated.result.unwrap();
    assert_eq!(
        entries(&config),
        vec![
            dep("a", "1.0.1"),
            dep("b", "1.0.0"),
            dep("c", "2.3.4"),
            dep("d", "1.0.0"),
            dep("e", "1.0.0")
        ]
    );
    assert_eq!(report.updated, 3);
    let line = |package: &str, from: &str, to: Option<&str>| update::UpdateLine {
        package: package.to_string(),
        from: from.to_string(),
        to: to.map(|v| v.to_string()),
    };
    assert_eq!(
        report.lines,
        vec![
            line("a", "1.0.0", Some("1.0.1")),
            line("b", "latest", Some("1.0.0")),
            line("c", "2.3.4", None),
            line("d", "oops", Some("1.0.0")),
            line("e", "1.0.0", None),
        ]
    );
    let mut expected = vec![FsAction::EnsureModulesDir];
    expected.push(FsAction::RemovePackageDir { package: "a".to_string() });
    expected.extend(install_actions("a", "1.0.1"));
    expected.push(FsAction::RemovePackageDir { package: "b".to_string() });
    expected.extend(install_actions("b", "1.0.0"));
    expected.extend(install_actions("d", "1.0.0"));
    expected.push(FsAction::WriteManifest);
    assert_eq!(updated.actions, expected);
    assert_eq!(cache, cache_of(&["a", "b", "c", "d"]));
}

#[test]
fn update_with_too_few_answers_takes_the_rest_as_no() {
    let mut config = project(&[("a", "1.0.0"), ("b", "1.0.0")]);
    let mut cache = ModuleCache::new();
    let updated = update::execute_with(&mut config, &mut cache, &None, &vec![true]);
    assert_eq!(updated.result.unwrap().updated, 1);
    assert_eq!(entries(&config), vec![dep("a", "1.0.1"), dep("b", "1.0.0")]);
}

#[test]
fn update_of_one_package_leaves_the_others() {
    let mut config = project(&[("a", "1.0.0"), ("b", "1.0.0"), ("c", "latest")]);
    let mut cache = cache_of(&["a", "b", "c"]);
    let updated = update::execute_with(
        &mut config,
        &mut cache,
        &Some("b".to_string()),
        &vec![true, true, true],
    );
    let report = updated.result.unwrap();
    assert_eq!(report.updated, 1);
    assert_eq!(report.lines.len(), 1);
    assert_eq!(report.lines[0].package, "b");
    assert_eq!(report.lines[0].to, Some("1.0.1".to_string()));
    assert_eq!(entries(&config), vec![dep("a", "1.0.0"), dep("b", "1.0.1"), dep("c", "latest")]);
}

#[test]
fn update_when_nothing_is_newer_still_writes_the_manifest() {
    let mut config = project(&[("a", "1.0.0")]);
    let before = config.clone();
    let mut cache = cache_of(&["a"]);
    let mut oracle = FixedOracle { answer: false };
    let updated = update::execute(&mut config, &mut cache, &None, &mut oracle);
    let report = updated.result.unwrap();
    assert_eq!(report.updated, 0);
    assert_eq!(report.lines[0].to, None);
    assert_eq!(updated.actions, vec![FsAction::EnsureModulesDir, FsAction::WriteManifest]);
    assert_eq!(config, before);
}

#[test]
fn update_with_a_coin_raises_or_keeps() {
    for _ in 0..30 {
        let mut config = project(&[("a", "1.0.0")]);
        let mut cache = ModuleCache::new();
        let mut oracle = RandomOracle {};
        let updated = update::execute(&mut config, &mut cache, &None, &mut oracle);
        let report = updated.result.unwrap();
        let now = entries(&config)[0].version.clone();
        assert!(now == "1.0.0" || now == "1.0.1");
        assert_eq!(report.updated, if now == "1.0.1" { 1 } else { 0 });
    }
}

#[test]
fn run_takes_the_named_script_or_the_entry() {
    let config = create_default_config("demo");
    assert_eq!(run::script_to_run(&config, &None), "src/main.so");
    assert_eq!(run::script_to_run(&config, &Some("tools/x.so".to_string())), "tools/x.so");
}

#[test]
fn run_needs_a_file() {
    assert_eq!(run::execute("src/main.so".to_string(), PathKind::File), Ok("src/main.so".to_string()));
    for kind in [PathKind::Missing, PathKind::Directory, PathKind::Other] {
        let err = run::execute("src/main.so".to_string(), kind).unwrap_err();
        assert_eq!(err.kind, ErrorKind::NotFound);
        assert_eq!(err.message, "Script file not found: src/main.so");
    }
}

#[test]
fn init_refuses_a_full_directory_without_questions() {
    assert_eq!(init::check_directory(true, true), Ok(()));
    assert_eq!(init::check_directory(false, true), Ok(()));
    assert_eq!(init::check_directory(false, false), Ok(()));
    let err = init::check_directory(true, false).unwrap_err();
    assert_eq!(err.kind, ErrorKind::NotEmpty);
    assert_eq!(
        err.message,
        "Current directory is not empty. Cannot initialize with -y flag. Use interactive mode or empty the directory."
    );
}

#[test]
fn init_needs_a_directory_name() {
    assert_eq!(init::directory_name(Some("demo".to_string())), Ok("demo".to_string()));
    let err = init::directory_name(None).unwrap_err();
    assert_eq!(err.kind, ErrorKind::NotFound);
    assert_eq!(err.message, "Unable to determine current directory name");
}

#[test]
fn init_location_follows_the_name_entered() {
    assert_eq!(init::choose_location(".", true), Ok(init::Location::CurrentDir));
    assert_eq!(init::choose_location("./", true), Ok(init::Location::CurrentDir));
    assert_eq!(
        init::choose_location("demo", false),
        Ok(init::Location::NewDir { name: "demo".to_string() })
    );
    assert_eq!(
        init::choose_location("..", true),
        Ok(init::Location::NewDir { name: "..".to_string() })
    );
    for input in [".", "./"] {
        let err = init::choose_location(input, false).unwrap_err();
        assert_eq!(err.kind, ErrorKind::NotEmpty);
        assert_eq!(
            err.message,
            "Current directory is not empty. Please enter a project name or empty the directory."
        );
    }
}

#[test]
fn init_asks_before_overwriting_a_manifest() {
    assert!(init::must_confirm_overwrite(false, PathKind::File));
    assert!(!init::must_confirm_overwrite(true, PathKind::File));
    assert!(!init::must_confirm_overwrite(false, PathKind::Missing));
    assert!(!init::must_confirm_overwrite(false, PathKind::Directory));
    assert_eq!(init::confirm(true), Ok(()));
    let err = init::confirm(false).unwrap_err();
    assert_eq!(err.kind, ErrorKind::Aborted);
    assert_eq!(err.message, "Initialization aborted.");
}

#[test]
fn init_default_project_is_experimental() {
    let config = init::create_default_project("demo");
    let mut expected = create_default_config("demo");
    expected.project.status = "experimental".to_string();
    assert_eq!(config, expected);
}

fn answers(version: &str) -> init::ProjectAnswers {
    init::ProjectAnswers {
        version: version.to_string(),
        description: "A demo".to_string(),
        license: "MIT".to_string(),
        author: "Ada".to_string(),
        repository: "https://example.org/demo.git".to_string(),
        homepage: String::new(),
    }
}

#[test]
fn init_interactive_project_takes_the_answers() {
    let config = init::create_interactive_project("demo", answers("0.2.0"));
    assert_eq!(config.project.name, "demo");
    assert_eq!(config.project.version, "0.2.0");
    assert_eq!(config.project.status, "experimental");
    assert_eq!(config.project.description, "A demo");
    assert_eq!(config.project.license, "MIT");
    assert_eq!(config.project.author, "Ada");
    assert_eq!(config.project.repository, "https://example.org/demo.git");
    assert_eq!(config.project.homepage, "");
    assert_eq!(config.project.entry, "src/main.so");
    assert_eq!(config.project.keywords, Vec::<String>::new());
    assert_eq!(config.project.categories, Vec::<String>::new());
    assert_eq!(config.dependencies, Some(DependencyMap::new()));
}

#[test]
fn init_interactive_project_defaults_an_empty_version() {
    assert_eq!(init::create_interactive_project("demo", answers("")).project.version, "1.0.0");
}

#[test]
fn init_lays_out_the_project() {
    let main = "// This is the main entry point for your Soplang project\n\nhowl main() {\n    qor('Hello World!');\n}\n";
    assert_eq!(init::create_main_file(), main);
    let report = init::execute("demo", None);
    assert_eq!(report.config, init::create_default_project("demo"));
    assert_eq!(
        report.actions,
        vec![
            FsAction::EnsureSourceDir,
            FsAction::WriteManifest,
            FsAction::WriteMainFile { content: main.to_string() },
        ]
    );
    let asked = init::execute("demo", Some(answers("3.0.0")));
    assert_eq!(asked.config, init::create_interactive_project("demo", answers("3.0.0")));
    assert_eq!(asked.actions, report.actions);
}
