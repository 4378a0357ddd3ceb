use sop::cache::{FsAction, ModuleCache};
use sop::commands::{add, remove, setup, update};
use sop::dependencies::{Dependency, DependencyMap};
use sop::error::ErrorKind;
use sop::installer::InstallOutcome;
use sop::toml_parser::{create_default_config, write_sop_toml};
use sop::version::FixedOracle;

fn metadata_of(actions: &[FsAction], package: &str) -> Option<String> {
    actions.iter().find_map(|action| match action {
        FsAction::WriteMetadata { package: p, content } if p == package => Some(content.clone()),
        _ => None,
    })
}

#[test]
fn scenario_add_to_an_empty_project() {
    let mut config = create_default_config("demo");
    let mut cache = ModuleCache::new();
    let added = add::execute(&mut config, &mut cache, "foo", &None);
    let report = added.result.unwrap();
    assert_eq!(report.specifier, "latest");
    assert_eq!(report.version, "1.0.0");
    assert_eq!(
        config.dependencies.as_ref().unwrap().to_vec(),
        vec![Dependency { name: "foo".to_string(), version: "latest".to_string() }]
    );
    assert!(cache.contains("foo"));
    assert_eq!(
        metadata_of(&added.actions, "foo"),
        Some(
            "[package]\nname = \"foo\"\nversion = \"1.0.0\"\ndescription = \"A Soplang package\"\n"
                .to_string()
        )
    );
    let done = setup::execute(&config, &mut cache);
    assert_eq!(done.actions, vec![FsAction::EnsureModulesDir]);
    assert!(cache.contains("foo"));
}

#[test]
fn scenario_setup_of_a_fresh_checkout_resolves_latest() {
    let mut config = create_default_config("demo");
    config.dependencies.as_mut().unwrap().insert("foo".to_string(), "latest".to_string());
    let mut cache = ModuleCache::new();
    let done = setup::execute(&config, &mut cache);
    assert_eq!(
        metadata_of(&done.actions, "foo"),
        Some(
            "[package]\nname = \"foo\"\nversion = \"1.0.0\"\ndescription = \"A Soplang package\"\n"
                .to_string()
        )
    );
    assert!(cache.contains("foo"));
}

#[test]
fn scenario_setup_with_an_installed_package() {
    let mut config = create_default_config("demo");
    config.dependencies.as_mut().unwrap().insert("bar".to_string(), "1.2.3".to_string());
    let mut cache = ModuleCache::new();
    cache.insert("bar");
    let done = setup::execute(&config, &mut cache);
    let report = done.result.unwrap();
    assert_eq!(report.installs.len(), 1);
    assert_eq!(report.installs[0].package, "bar");
    assert_eq!(report.installs[0].outcome, InstallOutcome::AlreadyInstalled);
    assert_eq!(done.actions, vec![FsAction::EnsureModulesDir]);
}

#[test]
fn scenario_update_with_a_newer_version() {
    let mut config = create_default_config("demo");
    config.dependencies.as_mut().unwrap().insert("baz".to_string(), "2.0.1".to_string());
    let mut cache = ModuleCache::new();
    cache.insert("baz");
    let mut oracle = FixedOracle { answer: true };
    let updated = update::execute(&mut config, &mut cache, &Some("baz".to_string()), &mut oracle);
    let report = updated.result.unwrap();
    assert_eq!(report.updated, 1);
    assert_eq!(report.lines.len(), 1);
    assert_eq!(report.lines[0].from, "2.0.1");
    assert_eq!(report.lines[0].to, Some("2.0.2".to_string()));
    assert_eq!(
        config.dependencies.as_ref().unwrap().get("baz"),
        Some(&"2.0.2".to_string())
    );
    assert_eq!(
        updated.actions,
        vec![
            FsAction::EnsureModulesDir,
            FsAction::RemovePackageDir { package: "baz".to_string() },
            FsAction::CreatePackageDir { package: "baz".to_string() },
            FsAction::WriteMetadata {
                package: "baz".to_string(),
                content: "[package]\nname = \"baz\"\nversion = \"2.0.2\"\ndescription = \"A Soplang package\"\n".to_string(),
            },
            FsAction::WriteLibrary {
                package: "baz".to_string(),
                content: "// This is a placeholder for the baz library\n\nexport fn hello() {\n    println(\"Hello from baz!\");\n}\n".to_string(),
            },
            FsAction::WriteManifest,
        ]
    );
    assert!(cache.contains("baz"));
}

#[test]
fn scenario_remove_of_a_package_that_is_no_dependency() {
    let mut config = create_default_config("demo");
    config.dependencies.as_mut().unwrap().insert("foo".to_string(), "1.0.0".to_string());
    let written_before = write_sop_toml(&config);
    let mut cache = ModuleCache::new();
    let removed = remove::execute(&mut config, &mut cache, "nonexistent");
    assert_eq!(removed.result.unwrap_err().kind, ErrorKind::NotPresent);
    assert!(!removed.actions.contains(&FsAction::WriteManifest));
    assert_eq!(removed.actions, Vec::new());
    assert_eq!(write_sop_toml(&config), written_before);
}

#[test]
fn scenario_remove_on_an_empty_table() {
    let mut config = create_default_config("demo");
    config.dependencies = Some(DependencyMap::new());
    let mut cache = ModuleCache::new();
    let removed = remove::execute(&mut config, &mut cache, "nonexistent");
    let err = removed.result.unwrap_err();
    assert_eq!(err.kind, ErrorKind::NotPresent);
    assert_eq!(err.message, "Package 'nonexistent' not found in your dependencies.");
}
