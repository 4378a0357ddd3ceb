//! The installer: puts one package into the module cache, and replaces
//! one that is there.
//!
//! What is written stands in for what a registry would deliver: a
//! metadata record, and a library with a single exported function that
//! greets by the package's name.

use crate::cache::{
    installed_after_all, lemma_installed_after_concat, plan, Action, FsAction, ModuleCache,
};
use crate::text::owned;
use vstd::prelude::*;
use vstd::string::*;

verus! {

/// The metadata record of an installed package.
pub open spec fn metadata_text(package: Seq<char>, version: Seq<char>) -> Seq<char> {
    "[package]\nname = \""@ + package + "\"\nversion = \""@ + version
        + "\"\ndescription = \"A Soplang package\"\n"@
}

/// The library of an installed package.
pub open spec fn library_text(package: Seq<char>) -> Seq<char> {
    "// This is a placeholder for the "@ + package
        + " library\n\nexport fn hello() {\n    println(\"Hello from "@ + package + "!\");\n}\n"@
}

/// The operations that put a package into the cache: its directory, its
/// metadata, its library.
pub open spec fn install_actions(package: Seq<char>, version: Seq<char>) -> Seq<Action> {
    seq![
        Action::CreatePackageDir { package },
        Action::WriteMetadata { package, content: metadata_text(package, version) },
        Action::WriteLibrary { package, content: library_text(package) },
    ]
}

/// What an install does to a cache that holds `installed`: nothing where
/// the package has a directory, whatever version that directory records.
pub open spec fn install_plan(
    installed: Set<Seq<char>>,
    package: Seq<char>,
    version: Seq<char>,
) -> Seq<Action> {
    if installed.contains(package) {
        Seq::empty()
    } else {
        install_actions(package, version)
    }
}

/// What a reinstall does to a cache that holds `installed`: the package's
/// directory goes, if there is one, and the package is put in afresh.
pub open spec fn reinstall_plan(
    installed: Set<Seq<char>>,
    package: Seq<char>,
    version: Seq<char>,
) -> Seq<Action> {
    if installed.contains(package) {
        seq![Action::RemovePackageDir { package }] + install_actions(package, version)
    } else {
        install_actions(package, version)
    }
}

/// Putting a package into the cache leaves it with a directory, and every
/// other package as it was, whatever the cache held.
pub proof fn lemma_install_actions_effect(
    held: Set<Seq<char>>,
    package: Seq<char>,
    version: Seq<char>,
)
    ensures
        installed_after_all(held, install_actions(package, version)) == held.insert(package),
{
    let actions = install_actions(package, version);
    let two = actions.drop_last();
    let one = two.drop_last();
    assert(one.drop_last() =~= Seq::<Action>::empty());
    assert(installed_after_all(held, one.drop_last()) == held);
    assert(one.last() == (Action::CreatePackageDir { package }));
    assert(installed_after_all(held, one) == held.insert(package));
    assert(two.last() == (Action::WriteMetadata {
        package,
        content: metadata_text(package, version),
    }));
    assert(installed_after_all(held, two) == held.insert(package));
    assert(actions.last() == (Action::WriteLibrary { package, content: library_text(package) }));
}

/// Carrying out the operations of an install leaves the package with a
/// directory, and every other package as it was.
pub proof fn lemma_install_effect(
    installed: Set<Seq<char>>,
    package: Seq<char>,
    version: Seq<char>,
)
    ensures
        installed_after_all(installed, install_plan(installed, package, version))
            == installed.insert(package),
{
    if installed.contains(package) {
        assert(installed.insert(package) =~= installed);
    } else {
        lemma_install_actions_effect(installed, package, version);
    }
}

/// Carrying out the operations of a reinstall leaves the package with a
/// directory, and every other package as it was, whatever the cache held
/// when they were planned.
pub proof fn lemma_reinstall_effect(
    held: Set<Seq<char>>,
    installed: Set<Seq<char>>,
    package: Seq<char>,
    version: Seq<char>,
)
    ensures
        installed_after_all(held, reinstall_plan(installed, package, version)) == held.insert(
            package,
        ),
{
    if installed.contains(package) {
        let removal = seq![Action::RemovePackageDir { package }];
        assert(removal.drop_last() =~= Seq::<Action>::empty());
        assert(installed_after_all(held, removal.drop_last()) == held);
        assert(installed_after_all(held, removal) == held.remove(package));
        lemma_installed_after_concat(held, removal, install_actions(package, version));
        lemma_install_actions_effect(held.remove(package), package, version);
        assert(held.remove(package).insert(package) =~= held.insert(package));
    } else {
        lemma_install_actions_effect(held, package, version);
    }
}

/// Installing twice is installing once. After an install, a second one
/// with the same arguments hands out no operation, so that the disk stays
/// as the first one left it.
pub proof fn install_is_idempotent(
    installed: Set<Seq<char>>,
    package: Seq<char>,
    version: Seq<char>,
)
    ensures
        ({
            let once = installed_after_all(installed, install_plan(installed, package, version));
            let again = install_plan(once, package, version);
            again == Seq::<Action>::empty() && installed_after_all(once, again) == once
        }),
{
    lemma_install_effect(installed, package, version);
}

/// How an install ended.
#[derive(Clone, Copy, Debug, PartialEq, Eq, Structural)]
pub enum InstallOutcome {
    /// The package had a directory already; nothing was touched.
    AlreadyInstalled,
    /// The package was put into the cache.
    Installed,
}

/// What an install decided, and the operations to carry out for it.
#[derive(Clone, Debug, PartialEq, Eq)]
pub struct InstallReport {
    pub outcome: InstallOutcome,
    pub actions: Vec<FsAction>,
}

/// The text of `metadata_text`.
pub fn package_metadata(package: &str, version: &str) -> (content: String)
    ensures
        content@ == metadata_text(package@, version@),
{
    let mut content = owned("[package]\nname = \"");
    content.append(package);
    content.append("\"\nversion = \"");
    content.append(version);
    content.append("\"\ndescription = \"A Soplang package\"\n");
    assert(content@ =~= metadata_text(package@, version@));
    content
}

/// The text of `library_text`.
pub fn package_library(package: &str) -> (content: String)
    ensures
        content@ == library_text(package@),
{
    let mut content = owned("// This is a placeholder for the ");
    content.append(package);
    content.append(" library\n\nexport fn hello() {\n    println(\"Hello from ");
    content.append(package);
    content.append("!\");\n}\n");
    assert(content@ =~= library_text(package@));
    content
}

fn push_install_actions(actions: &mut Vec<FsAction>, package: &str, version: &str)
    ensures
        plan(final(actions)@) == plan(old(actions)@) + install_actions(package@, version@),
{
    actions.push(FsAction::CreatePackageDir { package: owned(package) });
    actions.push(
        FsAction::WriteMetadata {
            package: owned(package),
            content: package_metadata(package, version),
        },
    );
    actions.push(
        FsAction::WriteLibrary { package: owned(package), content: package_library(package) },
    );
    assert(plan(actions@) =~= plan(old(actions)@) + install_actions(package@, version@));
}

/// Installs `package` at `version`. A package that has a directory in the
/// cache counts as installed, whatever version it records: then nothing
/// is done.
pub fn install_package(cache: &mut ModuleCache, package: &str, version: &str) -> (report:
    InstallReport)
    ensures
        plan(report.actions@) == install_plan(old(cache)@, package@, version@),
        final(cache)@ == old(cache)@.insert(package@),
        report.outcome == if old(cache)@.contains(package@) {
            InstallOutcome::AlreadyInstalled
        } else {
            InstallOutcome::Installed
        },
{
    let mut actions: Vec<FsAction> = Vec::new();
    if cache.contains(package) {
        assert(cache@ =~= cache@.insert(package@));
        assert(plan(actions@) =~= Seq::<Action>::empty());
        return InstallReport { outcome: InstallOutcome::AlreadyInstalled, actions };
    }
    push_install_actions(&mut actions, package, version);
    assert(plan(actions@) =~= install_actions(package@, version@));
    cache.insert(package);
    InstallReport { outcome: InstallOutcome::Installed, actions }
}

/// Installs `package` at `version` in place of whatever the cache holds
/// under that name.
pub fn reinstall_package(cache: &mut ModuleCache, package: &str, version: &str) -> (actions: Vec<
    FsAction,
>)
    ensures
        plan(actions@) == reinstall_plan(old(cache)@, package@, version@),
        final(cache)@ == old(cache)@.insert(package@),
{
    let mut actions: Vec<FsAction> = Vec::new();
    if cache.remove(package) {
        actions.push(FsAction::RemovePackageDir { package: owned(package) });
    }
    let ghost removed = plan(actions@);
    push_install_actions(&mut actions, package, version);
    cache.insert(package);
    assert(cache@ =~= old(cache)@.insert(package@));
    assert(plan(actions@) =~= reinstall_plan(old(cache)@, package@, version@));
    actions
}

} // verus!
