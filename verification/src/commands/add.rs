//! `add`: records a new dependency in the manifest and installs it.

use crate::cache::{
    installed_after_all, lemma_installed_after_concat, plan, Action, FsAction, ModuleCache,
};
use crate::dependencies::{has_name, DependencyMap};
use crate::error::{ErrorKind, SopError};
use crate::installer::{install_package, install_plan, lemma_install_effect, InstallOutcome};
use crate::plan::Planned;
use crate::text::owned;
use crate::toml_parser::{Manifest, SopToml};
use crate::version::{latest, resolve_target, resolved};
use vstd::prelude::*;
use vstd::string::*;

verus! {

/// The specifier that is recorded for a request: the version asked for,
/// or `latest` where none was.
pub open spec fn requested(version: Option<String>) -> Seq<char> {
    match version {
        Some(v) => v@,
        None => latest(),
    }
}

/// The message of the error for a package that is a dependency already.
pub open spec fn already_present_message(package: Seq<char>) -> Seq<char> {
    "Package '"@ + package + "' is already in your dependencies."@
}

/// The operations of a successful `add`: the manifest is written first,
/// then the package is installed at the version its specifier resolves
/// to.
pub open spec fn add_plan(
    installed: Set<Seq<char>>,
    package: Seq<char>,
    specifier: Seq<char>,
) -> Seq<Action> {
    seq![Action::WriteManifest, Action::EnsureModulesDir] + install_plan(
        installed,
        package,
        resolved(specifier),
    )
}

/// Carrying out the operations of an `add` leaves the package with a
/// directory, and every other package as it was.
pub proof fn lemma_add_effect(installed: Set<Seq<char>>, package: Seq<char>, specifier: Seq<char>)
    ensures
        installed_after_all(installed, add_plan(installed, package, specifier))
            == installed.insert(package),
{
    let head = seq![Action::WriteManifest, Action::EnsureModulesDir];
    let one = head.drop_last();
    assert(one.drop_last() =~= Seq::<Action>::empty());
    assert(installed_after_all(installed, one.drop_last()) == installed);
    assert(installed_after_all(installed, one) == installed);
    assert(installed_after_all(installed, head) == installed);
    lemma_installed_after_concat(
        installed,
        head,
        install_plan(installed, package, resolved(specifier)),
    );
    lemma_install_effect(installed, package, resolved(specifier));
}

/// The specifier that is recorded for a request.
pub fn specifier_for(version: &Option<String>) -> (specifier: String)
    ensures
        specifier@ == requested(*version),
{
    match version {
        Some(v) => v.clone(),
        None => owned("latest"),
    }
}

/// What `add` did.
#[derive(Clone, Debug, PartialEq, Eq)]
pub struct AddReport {
    /// The specifier now recorded in the manifest.
    pub specifier: String,
    /// The version handed to the installer.
    pub version: String,
    /// Whether the package had to be installed.
    pub outcome: InstallOutcome,
}

/// Adds `package` to the dependencies, with the specifier asked for or
/// `latest`, and installs it. A package that is a dependency already is
/// refused with `AlreadyPresent`, and nothing changes.
pub fn execute(
    config: &mut SopToml,
    cache: &mut ModuleCache,
    package: &str,
    version: &Option<String>,
) -> (added: Planned<AddReport>)
    ensures
        added.result is Err <==> has_name(old(config).entries(), package@),
        added.result matches Err(e) ==> {
            &&& e.kind == ErrorKind::AlreadyPresent
            &&& e.message@ == already_present_message(package@)
            &&& final(config)@ == old(config)@
            &&& final(cache)@ == old(cache)@
            &&& plan(added.actions@) == Seq::<Action>::empty()
        },
        added.result matches Ok(report) ==> {
            &&& final(config)@ == (Manifest {
                project: old(config)@.project,
                dependencies: Some(old(config).entries().push((package@, requested(*version)))),
            })
            &&& final(cache)@ == old(cache)@.insert(package@)
            &&& plan(added.actions@) == add_plan(old(cache)@, package@, requested(*version))
            &&& report.specifier@ == requested(*version)
            &&& report.version@ == resolved(requested(*version))
            &&& report.outcome == if old(cache)@.contains(package@) {
                InstallOutcome::AlreadyInstalled
            } else {
                InstallOutcome::Installed
            }
        },
{
    let specifier = specifier_for(version);
    let mut actions: Vec<FsAction> = Vec::new();
    let mut dependencies = match config.dependencies.take() {
        Some(map) => map,
        None => DependencyMap::new(),
    };
    if dependencies.contains_key(package) {
        config.dependencies = Some(dependencies);
        let mut message = owned("Package '");
        message.append(package);
        message.append("' is already in your dependencies.");
        assert(message@ =~= already_present_message(package@));
        assert(final(config)@ =~= old(config)@);
        assert(plan(actions@) =~= Seq::<Action>::empty());
        return Planned {
            actions,
            result: Err(SopError::new(ErrorKind::AlreadyPresent, message)),
        };
    }
    dependencies.insert(owned(package), specifier.clone());
    config.dependencies = Some(dependencies);
    actions.push(FsAction::WriteManifest);
    actions.push(FsAction::EnsureModulesDir);
    let resolved_version = resolve_target(specifier.as_str());
    let mut installed = install_package(cache, package, resolved_version.as_str());
    let ghost head = plan(actions@);
    let ghost tail = plan(installed.actions@);
    actions.append(&mut installed.actions);
    assert(plan(actions@) =~= head + tail);
    assert(head =~= seq![Action::WriteManifest, Action::EnsureModulesDir]);
    Planned {
        actions,
        result: Ok(
            AddReport { specifier, version: resolved_version, outcome: installed.outcome },
        ),
    }
}

} // verus!
