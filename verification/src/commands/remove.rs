//! `remove`: drops a dependency from the manifest and deletes what was
//! installed for it.

use crate::cache::{installed_after_all, plan, Action, FsAction, ModuleCache};
use crate::dependencies::{
    distinct_names, has_name, lemma_position, version_for, without_entry, Entries,
};
use crate::error::{ErrorKind, SopError};
use crate::plan::Planned;
use crate::text::owned;
use crate::toml_parser::{Manifest, SopToml};
use vstd::prelude::*;
use vstd::string::*;

verus! {

/// The message of the error for a manifest without a `[dependencies]`
/// table.
pub open spec fn no_dependencies_message() -> Seq<char> {
    "No dependencies found in sop.toml."@
}

/// The message of the error for a package that is no dependency.
pub open spec fn not_present_message(package: Seq<char>) -> Seq<char> {
    "Package '"@ + package + "' not found in your dependencies."@
}

/// The operations of a successful `remove`: the manifest is written
/// first, then the package's directory goes, if it has one.
pub open spec fn remove_plan(installed: Set<Seq<char>>, package: Seq<char>) -> Seq<Action> {
    if installed.contains(package) {
        seq![Action::WriteManifest, Action::RemovePackageDir { package }]
    } else {
        seq![Action::WriteManifest]
    }
}

/// What `remove` did.
#[derive(Clone, Debug, PartialEq, Eq)]
pub struct RemoveReport {
    /// The specifier that was recorded for the package.
    pub specifier: String,
    /// Whether the package had a directory to delete. Where it had none,
    /// the caller warns and goes on.
    pub directory_found: bool,
}

/// Removes `package` from the dependencies and from the module cache. A
/// package that is no dependency is refused with `NotPresent`, and
/// nothing changes.
pub fn execute(config: &mut SopToml, cache: &mut ModuleCache, package: &str) -> (removed: Planned<
    RemoveReport,
>)
    ensures
        removed.result is Err <==> !has_name(old(config).entries(), package@),
        removed.result matches Err(e) ==> {
            &&& e.kind == ErrorKind::NotPresent
            &&& e.message@ == if old(config).dependencies is None {
                no_dependencies_message()
            } else {
                not_present_message(package@)
            }
            &&& final(config)@ == old(config)@
            &&& final(cache)@ == old(cache)@
            &&& plan(removed.actions@) == Seq::<Action>::empty()
        },
        removed.result matches Ok(report) ==> {
            &&& final(config)@ == (Manifest {
                project: old(config)@.project,
                dependencies: Some(without_entry(old(config).entries(), package@)),
            })
            &&& final(cache)@ == old(cache)@.remove(package@)
            &&& plan(removed.actions@) == remove_plan(old(cache)@, package@)
            &&& Some(report.specifier@) == version_for(old(config).entries(), package@)
            &&& report.directory_found == old(cache)@.contains(package@)
        },
{
    let mut actions: Vec<FsAction> = Vec::new();
    assert(plan(actions@) =~= Seq::<Action>::empty());
    let mut dependencies = match config.dependencies.take() {
        Some(map) => map,
        None => {
            assert(final(config)@ =~= old(config)@);
            return Planned {
                actions,
                result: Err(
                    SopError::new(
                        ErrorKind::NotPresent,
                        owned("No dependencies found in sop.toml."),
                    ),
                ),
            };
        },
    };
    let specifier = match dependencies.remove(package) {
        Some(specifier) => specifier,
        None => {
            config.dependencies = Some(dependencies);
            let mut message = owned("Package '");
            message.append(package);
            message.append("' not found in your dependencies.");
            assert(message@ =~= not_present_message(package@));
            assert(final(config)@ =~= old(config)@);
            return Planned { actions, result: Err(SopError::new(ErrorKind::NotPresent, message)) };
        },
    };
    config.dependencies = Some(dependencies);
    actions.push(FsAction::WriteManifest);
    let directory_found = cache.remove(package);
    if directory_found {
        actions.push(FsAction::RemovePackageDir { package: owned(package) });
    }
    assert(plan(actions@) =~= remove_plan(old(cache)@, package@));
    Planned { actions, result: Ok(RemoveReport { specifier, directory_found }) }
}

/// Carrying out the operations of a `remove` leaves the package without
/// a directory, and every other package as it was.
pub proof fn lemma_remove_effect(installed: Set<Seq<char>>, package: Seq<char>)
    ensures
        installed_after_all(installed, remove_plan(installed, package)) == installed.remove(
            package,
        ),
{
    let actions = remove_plan(installed, package);
    if installed.contains(package) {
        let one = actions.drop_last();
        assert(one.drop_last() =~= Seq::<Action>::empty());
        assert(installed_after_all(installed, one.drop_last()) == installed);
        assert(installed_after_all(installed, one) == installed);
    } else {
        assert(actions.drop_last() =~= Seq::<Action>::empty());
        assert(installed_after_all(installed, actions.drop_last()) == installed);
        assert(installed.remove(package) =~= installed);
    }
}

/// Adding a package and removing it again undoes the addition. For a
/// package that is no dependency yet, the dependencies are afterwards
/// what they were, entry for entry, and the package has no directory in
/// the cache; a cache that did not hold the package is what it was.
pub proof fn add_then_remove_restores(
    entries: Entries,
    installed: Set<Seq<char>>,
    package: Seq<char>,
    specifier: Seq<char>,
)
    requires
        distinct_names(entries),
        !has_name(entries, package),
    ensures
        ({
            let added = entries.push((package, specifier));
            let cached = installed.insert(package);
            &&& has_name(added, package)
            &&& without_entry(added, package) == entries
            &&& !cached.remove(package).contains(package)
            &&& !installed.contains(package) ==> cached.remove(package) == installed
            &&& remove_plan(cached, package) == seq![
                Action::WriteManifest,
                Action::RemovePackageDir { package },
            ]
        }),
{
    let added = entries.push((package, specifier));
    let last = entries.len() as int;
    assert(added[last].0 == package);
    assert(distinct_names(added)) by {
        assert forall|i: int, j: int| 0 <= i < j < added.len() implies (#[trigger] added[i]).0 != (
        #[trigger] added[j]).0 by {
            if j < last {
                assert(entries[i].0 != entries[j].0);
            } else {
                assert(entries[i].0 != package);
            }
        }
    }
    lemma_position(added, last);
    assert(added.remove(last) =~= entries);
    if !installed.contains(package) {
        assert(installed.insert(package).remove(package) =~= installed);
    }
}

} // verus!
