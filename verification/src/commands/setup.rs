//! `setup`: installs every dependency of the manifest that the module
//! cache lacks.

use crate::cache::{
    installed_after_all, lemma_installed_after_concat, plan, Action, FsAction, ModuleCache,
};
use crate::dependencies::{distinct_names, has_name, plain, Dependency, Entries};
use crate::installer::{
    install_package, install_plan, lemma_install_actions_effect, InstallOutcome,
};
use crate::plan::Planned;
use crate::toml_parser::SopToml;
use crate::version::{resolve_target, resolved};
use vstd::prelude::*;
use vstd::string::*;

verus! {

/// The names of the entries.
pub open spec fn names_of(entries: Entries) -> Set<Seq<char>> {
    Set::new(|name: Seq<char>| has_name(entries, name))
}

/// The installs of a `setup`, dependency by dependency in the manifest's
/// order, each judged by what the cache held at the start and at the
/// version its specifier resolves to.
pub open spec fn setup_installs(installed: Set<Seq<char>>, entries: Entries) -> Seq<Action>
    decreases entries.len(),
{
    if entries.len() == 0 {
        Seq::empty()
    } else {
        setup_installs(installed, entries.drop_last()) + install_plan(
            installed,
            entries.last().0,
            resolved(entries.last().1),
        )
    }
}

/// The operations of a `setup`: the cache's directory is made sure of,
/// then come the installs.
pub open spec fn setup_plan(installed: Set<Seq<char>>, entries: Entries) -> Seq<Action> {
    seq![Action::EnsureModulesDir] + setup_installs(installed, entries)
}

proof fn lemma_installs_effect(held: Set<Seq<char>>, installed: Set<Seq<char>>, entries: Entries)
    requires
        installed.subset_of(held),
    ensures
        installed_after_all(held, setup_installs(installed, entries)) == held.union(
            names_of(entries),
        ),
    decreases entries.len(),
{
    if entries.len() == 0 {
        assert(held.union(names_of(entries)) =~= held);
    } else {
        let before = entries.drop_last();
        let package = entries.last().0;
        let version = resolved(entries.last().1);
        lemma_installs_effect(held, installed, before);
        lemma_installed_after_concat(
            held,
            setup_installs(installed, before),
            install_plan(installed, package, version),
        );
        let reached = held.union(names_of(before));
        if installed.contains(package) {
            assert(reached.contains(package));
        } else {
            lemma_install_actions_effect(reached, package, version);
        }
        assert(reached.insert(package) =~= held.union(names_of(entries))) by {
            assert forall|n: Seq<char>| has_name(entries, n) <==> (has_name(before, n) || n
                == package) by {
                if has_name(entries, n) {
                    let j = choose|j: int| 0 <= j < entries.len() && (#[trigger] entries[j]).0 == n;
                    if j < before.len() {
                        assert(before[j].0 == n);
                    }
                }
                if has_name(before, n) {
                    let j = choose|j: int| 0 <= j < before.len() && (#[trigger] before[j]).0 == n;
                    assert(entries[j].0 == n);
                }
                if n == package {
                    assert(entries[entries.len() - 1].0 == n);
                }
            }
        }
    }
}

/// Carrying out the operations of a `setup` leaves every dependency with
/// a directory, and every other package as it was.
pub proof fn lemma_setup_effect(installed: Set<Seq<char>>, entries: Entries)
    ensures
        installed_after_all(installed, setup_plan(installed, entries)) == installed.union(
            names_of(entries),
        ),
        forall|name: Seq<char>|
            has_name(entries, name) ==> installed_after_all(
                installed,
                setup_plan(installed, entries),
            ).contains(name),
{
    let head = seq![Action::EnsureModulesDir];
    assert(head.drop_last() =~= Seq::<Action>::empty());
    assert(installed_after_all(installed, head.drop_last()) == installed);
    assert(installed_after_all(installed, head) == installed);
    lemma_installed_after_concat(installed, head, setup_installs(installed, entries));
    lemma_installs_effect(installed, installed, entries);
}

/// What `setup` did for one dependency.
#[derive(Clone, Debug, PartialEq, Eq)]
pub struct PackageInstall {
    pub package: String,
    /// The version handed to the installer.
    pub version: String,
    pub outcome: InstallOutcome,
}

/// What `setup` did: one line per dependency, in the manifest's order. No
/// line means that the manifest names no dependency.
#[derive(Clone, Debug, PartialEq, Eq)]
pub struct SetupReport {
    /// The project's name.
    pub project: String,
    pub installs: Vec<PackageInstall>,
}

/// Whether `line` tells what `setup` does for `entry` on a cache that
/// held `installed`.
pub open spec fn tells_install(
    line: PackageInstall,
    installed: Set<Seq<char>>,
    entry: (Seq<char>, Seq<char>),
) -> bool {
    &&& line.package@ == entry.0
    &&& line.version@ == resolved(entry.1)
    &&& line.outcome == if installed.contains(entry.0) {
        InstallOutcome::AlreadyInstalled
    } else {
        InstallOutcome::Installed
    }
}

/// Installs every dependency that has no directory in the cache yet. The
/// manifest is not changed, and `setup` itself never fails.
pub fn execute(config: &SopToml, cache: &mut ModuleCache) -> (done: Planned<SetupReport>)
    ensures
        plan(done.actions@) == setup_plan(old(cache)@, config.entries()),
        final(cache)@ == old(cache)@.union(names_of(config.entries())),
        done.result matches Ok(report) && {
            &&& report.project@ == config.project.name@
            &&& report.installs.len() == config.entries().len()
            &&& forall|i: int|
                0 <= i < report.installs.len() ==> tells_install(
                    #[trigger] report.installs[i],
                    old(cache)@,
                    config.entries()[i],
                )
        },
{
    let ghost entries = config.entries();
    let ghost start = cache@;
    let list: Vec<Dependency> = match &config.dependencies {
        Some(map) => map.to_vec(),
        None => Vec::new(),
    };
    assert(plain(list@) =~= entries);
    assert(distinct_names(entries));
    let mut actions: Vec<FsAction> = Vec::new();
    actions.push(FsAction::EnsureModulesDir);
    let mut installs: Vec<PackageInstall> = Vec::new();
    let mut i: usize = 0;
    assert(entries.take(0) =~= Seq::<(Seq<char>, Seq<char>)>::empty());
    assert(plan(actions@) =~= seq![Action::EnsureModulesDir] + setup_installs(
        start,
        entries.take(0),
    ));
    assert(cache@ =~= start.union(names_of(entries.take(0))));
    while i < list.len()
        invariant
            i <= list.len(),
            plain(list@) == entries,
            distinct_names(entries),
            plan(actions@) == seq![Action::EnsureModulesDir] + setup_installs(
                start,
                entries.take(i as int),
            ),
            cache@ == start.union(names_of(entries.take(i as int))),
            installs.len() == i,
            forall|k: int| 0 <= k < i ==> tells_install(#[trigger] installs[k], start, entries[k]),
        decreases list.len() - i,
    {
        let ghost seen = entries.take(i as int);
        let ghost grown = entries.take(i + 1);
        let ghost entry = entries[i as int];
        assert(grown.drop_last() =~= seen);
        assert(grown.last() == entry);
        assert(entry == (list[i as int].name@, list[i as int].version@));
        assert(!has_name(seen, entry.0)) by {
            if has_name(seen, entry.0) {
                let j = choose|j: int| 0 <= j < seen.len() && (#[trigger] seen[j]).0 == entry.0;
                assert(entries[j].0 == entries[i as int].0);
            }
        }
        assert(cache@.contains(entry.0) == start.contains(entry.0));
        let version = resolve_target(list[i].version.as_str());
        let mut installed = install_package(cache, list[i].name.as_str(), version.as_str());
        let ghost head = plan(actions@);
        let ghost tail = plan(installed.actions@);
        actions.append(&mut installed.actions);
        assert(plan(actions@) =~= head + tail);
        assert(plan(actions@) =~= seq![Action::EnsureModulesDir] + setup_installs(start, grown));
        assert(cache@ =~= start.union(names_of(grown))) by {
            assert forall|n: Seq<char>| has_name(grown, n) <==> (has_name(seen, n) || n
                == entry.0) by {
                if has_name(grown, n) {
                    let j = choose|j: int| 0 <= j < grown.len() && (#[trigger] grown[j]).0 == n;
                    if j < i {
                        assert(seen[j].0 == n);
                    }
                }
                if has_name(seen, n) {
                    let j = choose|j: int| 0 <= j < seen.len() && (#[trigger] seen[j]).0 == n;
                    assert(grown[j].0 == n);
                }
                if n == entry.0 {
                    assert(grown[i as int].0 == n);
                }
            }
        }
        installs.push(
            PackageInstall {
                package: list[i].name.clone(),
                version,
                outcome: installed.outcome,
            },
        );
        i = i + 1;
    }
    assert(entries.take(i as int) =~= entries);
    Planned { actions, result: Ok(SetupReport { project: config.project.name.clone(), installs }) }
}

} // verus!
