//! `update`: checks one dependency, or all of them, for a newer version,
//! and replaces what is installed where there is one.

use crate::cache::{
    installed_after_all, lemma_installed_after_concat, plan, Action, FsAction, ModuleCache,
};
use crate::commands::remove::not_present_message;
use crate::dependencies::{
    distinct_names, has_name, lemma_position, plain, Dependency, Entries,
};
use crate::error::{ErrorKind, SopError};
use crate::installer::{lemma_reinstall_effect, reinstall_package, reinstall_plan};
use crate::plan::Planned;
use crate::text::{owned, same_text};
use crate::toml_parser::{Manifest, SopToml};
use crate::version::{
    check_for_update, is_concrete, needs_registry, update_target, UpdateOracle,
};
use vstd::prelude::*;
use vstd::string::*;

verus! {

/// The package that an update is asked for, as a plain value.
pub open spec fn wanted(package: Option<String>) -> Option<Seq<char>> {
    match package {
        Some(name) => Some(name@),
        None => None,
    }
}

/// The registry's answer for the dependency at `index`. Where there is
/// no answer, the registry has nothing newer.
pub open spec fn answer(answers: Seq<bool>, index: int) -> bool {
    if 0 <= index < answers.len() {
        answers[index]
    } else {
        false
    }
}

/// Whether the update is meant for the dependency at `index`: for each
/// of them where no package is named, else for the named one.
pub open spec fn targeted(entries: Entries, package: Option<Seq<char>>, index: int) -> bool {
    match package {
        Some(name) => entries[index].0 == name,
        None => true,
    }
}

/// The version that the check settles on for the dependency at `index`.
pub open spec fn settled(entries: Entries, answers: Seq<bool>, index: int) -> Seq<char> {
    update_target(entries[index].1, answer(answers, index))
}

/// Whether the update changes the dependency at `index`: it is meant for
/// it, and the check settles on something other than what is recorded.
pub open spec fn changes(
    entries: Entries,
    package: Option<Seq<char>>,
    answers: Seq<bool>,
    index: int,
) -> bool {
    targeted(entries, package, index) && settled(entries, answers, index) != entries[index].1
}

/// The dependencies after the first `upto` of them were looked at.
pub open spec fn updated_entries(
    entries: Entries,
    package: Option<Seq<char>>,
    answers: Seq<bool>,
    upto: int,
) -> Entries {
    Seq::new(
        entries.len(),
        |i: int|
            if i < upto && changes(entries, package, answers, i) {
                (entries[i].0, settled(entries, answers, i))
            } else {
                entries[i]
            },
    )
}

/// The reinstalls for the first `upto` dependencies, in order: one for
/// each dependency that changes, at the version settled on, judged by
/// what the cache held at the start.
pub open spec fn update_steps(
    installed: Set<Seq<char>>,
    entries: Entries,
    package: Option<Seq<char>>,
    answers: Seq<bool>,
    upto: int,
) -> Seq<Action>
    decreases upto,
{
    if upto <= 0 {
        Seq::empty()
    } else {
        let before = update_steps(installed, entries, package, answers, upto - 1);
        if changes(entries, package, answers, upto - 1) {
            before + reinstall_plan(
                installed,
                entries[upto - 1].0,
                settled(entries, answers, upto - 1),
            )
        } else {
            before
        }
    }
}

/// The names among the first `upto` dependencies that the update changes.
pub open spec fn changed_names(
    entries: Entries,
    package: Option<Seq<char>>,
    answers: Seq<bool>,
    upto: int,
) -> Set<Seq<char>> {
    Set::new(
        |name: Seq<char>|
            exists|i: int|
                0 <= i < upto && i < entries.len() && (#[trigger] entries[i]).0 == name && changes(
                    entries,
                    package,
                    answers,
                    i,
                ),
    )
}

proof fn lemma_steps_effect(
    installed: Set<Seq<char>>,
    entries: Entries,
    package: Option<Seq<char>>,
    answers: Seq<bool>,
    upto: int,
)
    requires
        0 <= upto <= entries.len(),
    ensures
        installed_after_all(installed, update_steps(installed, entries, package, answers, upto))
            == installed.union(changed_names(entries, package, answers, upto)),
    decreases upto,
{
    if upto == 0 {
        assert(installed.union(changed_names(entries, package, answers, upto)) =~= installed);
    } else {
        lemma_steps_effect(installed, entries, package, answers, upto - 1);
        let reached = installed.union(changed_names(entries, package, answers, upto - 1));
        let name = entries[upto - 1].0;
        if changes(entries, package, answers, upto - 1) {
            let step = reinstall_plan(installed, name, settled(entries, answers, upto - 1));
            lemma_installed_after_concat(
                installed,
                update_steps(installed, entries, package, answers, upto - 1),
                step,
            );
            lemma_reinstall_effect(reached, installed, name, settled(entries, answers, upto - 1));
            assert(reached.insert(name) =~= installed.union(
                changed_names(entries, package, answers, upto),
            )) by {
                assert(entries[upto - 1].0 == name);
            }
        } else {
            assert(reached =~= installed.union(changed_names(entries, package, answers, upto)));
        }
    }
}

/// Carrying out the operations of an update leaves every dependency that
/// it changed with a directory, and every other package as it was.
pub proof fn lemma_update_effect(
    installed: Set<Seq<char>>,
    entries: Entries,
    package: Option<Seq<char>>,
    answers: Seq<bool>,
)
    ensures
        ({
            let n = entries.len() as int;
            installed_after_all(
                installed,
                seq![Action::EnsureModulesDir] + update_steps(
                    installed,
                    entries,
                    package,
                    answers,
                    n,
                ) + seq![Action::WriteManifest],
            ) == installed.union(changed_names(entries, package, answers, n))
        }),
{
    let n = entries.len() as int;
    let head = seq![Action::EnsureModulesDir];
    let steps = update_steps(installed, entries, package, answers, n);
    let tail = seq![Action::WriteManifest];
    assert(head.drop_last() =~= Seq::<Action>::empty());
    assert(installed_after_all(installed, head.drop_last()) == installed);
    assert(installed_after_all(installed, head) == installed);
    lemma_installed_after_concat(installed, head, steps);
    lemma_steps_effect(installed, entries, package, answers, n);
    lemma_installed_after_concat(installed, head + steps, tail);
    let reached = installed.union(changed_names(entries, package, answers, n));
    assert(tail.drop_last() =~= Seq::<Action>::empty());
    assert(installed_after_all(reached, tail.drop_last()) == reached);
}

/// What an update found for one dependency, as plain values.
#[verifier::ext_equal]
pub struct Line {
    pub package: Seq<char>,
    /// The specifier that was recorded.
    pub from: Seq<char>,
    /// The version that is recorded now, where it changed.
    pub to: Option<Seq<char>>,
}

/// What an update found for one dependency.
#[derive(Clone, Debug, PartialEq, Eq)]
pub struct UpdateLine {
    pub package: String,
    /// The specifier that was recorded.
    pub from: String,
    /// The version that is recorded now; `None` where the dependency is
    /// up to date.
    pub to: Option<String>,
}

impl View for UpdateLine {
    type V = Line;

    open spec fn view(&self) -> Line {
        Line {
            package: self.package@,
            from: self.from@,
            to: match self.to {
                Some(v) => Some(v@),
                None => None,
            },
        }
    }
}

/// Report lines as plain values.
pub open spec fn lines(list: Seq<UpdateLine>) -> Seq<Line> {
    list.map_values(|l: UpdateLine| l@)
}

/// The report lines for the first `upto` dependencies: one for each
/// dependency that the update is meant for, in order.
pub open spec fn update_lines(
    entries: Entries,
    package: Option<Seq<char>>,
    answers: Seq<bool>,
    upto: int,
) -> Seq<Line>
    decreases upto,
{
    if upto <= 0 {
        Seq::empty()
    } else {
        let before = update_lines(entries, package, answers, upto - 1);
        if targeted(entries, package, upto - 1) {
            before.push(
                Line {
                    package: entries[upto - 1].0,
                    from: entries[upto - 1].1,
                    to: if changes(entries, package, answers, upto - 1) {
                        Some(settled(entries, answers, upto - 1))
                    } else {
                        None
                    },
                },
            )
        } else {
            before
        }
    }
}

/// How many of the first `upto` dependencies the update changes.
pub open spec fn change_count(
    entries: Entries,
    package: Option<Seq<char>>,
    answers: Seq<bool>,
    upto: int,
) -> nat
    decreases upto,
{
    if upto <= 0 {
        0
    } else {
        change_count(entries, package, answers, upto - 1) + if changes(
            entries,
            package,
            answers,
            upto - 1,
        ) {
            1nat
        } else {
            0nat
        }
    }
}

/// What `update` did: a line for each dependency it looked at, and how
/// many of them it changed. No line means that the manifest names no
/// dependency.
#[derive(Clone, Debug, PartialEq, Eq)]
pub struct UpdateReport {
    pub lines: Vec<UpdateLine>,
    pub updated: usize,
}

/// Whether a command's outcome is that of an update of `package`, or of
/// every dependency where none is named, on a manifest `before` and a
/// cache that held `installed`, with the registry answering `answers`,
/// dependency by dependency.
///
/// A manifest without dependencies is left alone, and so is the disk. A
/// named package that is no dependency is refused with `NotPresent`
/// after the cache's directory was made sure of. Else every dependency
/// that the update is meant for is checked in the manifest's order; one
/// whose check settles on another version has that version recorded and
/// is reinstalled at it; the manifest is written once, at the end.
pub open spec fn is_update(
    before: Manifest,
    installed: Set<Seq<char>>,
    package: Option<Seq<char>>,
    answers: Seq<bool>,
    after: Manifest,
    installed_after: Set<Seq<char>>,
    actions: Seq<Action>,
    result: Result<UpdateReport, SopError>,
) -> bool {
    let entries = match before.dependencies {
        Some(entries) => entries,
        None => Seq::empty(),
    };
    let n = entries.len() as int;
    if n == 0 {
        &&& after == before
        &&& installed_after == installed
        &&& actions == Seq::<Action>::empty()
        &&& result matches Ok(report)
        &&& lines(report.lines@) == Seq::<Line>::empty()
        &&& report.updated == 0
    } else if package is Some && !has_name(entries, package->0) {
        &&& after == before
        &&& installed_after == installed
        &&& actions == seq![Action::EnsureModulesDir]
        &&& result matches Err(e)
        &&& e.kind == ErrorKind::NotPresent
        &&& e.message@ == not_present_message(package->0)
    } else {
        &&& after == (Manifest {
            project: before.project,
            dependencies: Some(updated_entries(entries, package, answers, n)),
        })
        &&& installed_after == installed.union(changed_names(entries, package, answers, n))
        &&& actions == seq![Action::EnsureModulesDir] + update_steps(
            installed,
            entries,
            package,
            answers,
            n,
        ) + seq![Action::WriteManifest]
        &&& result matches Ok(report)
        &&& lines(report.lines@) == update_lines(entries, package, answers, n)
        &&& report.updated == change_count(entries, package, answers, n)
    }
}

/// Updates `package`, or every dependency where none is named, with the
/// registry's answers given: `answers[i]` says whether the registry has
/// something newer for the dependency at `i`.
pub fn execute_with(
    config: &mut SopToml,
    cache: &mut ModuleCache,
    package: &Option<String>,
    answers: &Vec<bool>,
) -> (updated: Planned<UpdateReport>)
    ensures
        is_update(
            old(config)@,
            old(cache)@,
            wanted(*package),
            answers@,
            final(config)@,
            final(cache)@,
            plan(updated.actions@),
            updated.result,
        ),
{
    let ghost entries = config.entries();
    let ghost start = cache@;
    let ghost target = wanted(*package);
    let ghost flags = answers@;
    let mut actions: Vec<FsAction> = Vec::new();
    let mut report_lines: Vec<UpdateLine> = Vec::new();
    assert(plan(actions@) =~= Seq::<Action>::empty());
    assert(lines(report_lines@) =~= Seq::<Line>::empty());
    let mut dependencies = match config.dependencies.take() {
        Some(map) => map,
        None => {
            assert(final(config)@ =~= old(config)@);
            return Planned {
                actions,
                result: Ok(UpdateReport { lines: report_lines, updated: 0 }),
            };
        },
    };
    let list: Vec<Dependency> = dependencies.to_vec();
    let n = list.len();
    if n == 0 {
        config.dependencies = Some(dependencies);
        assert(final(config)@ =~= old(config)@);
        return Planned { actions, result: Ok(UpdateReport { lines: report_lines, updated: 0 }) };
    }
    actions.push(FsAction::EnsureModulesDir);
    assert(plan(actions@) =~= seq![Action::EnsureModulesDir]);
    match package {
        Some(name) => {
            if !dependencies.contains_key(name.as_str()) {
                config.dependencies = Some(dependencies);
                let mut message = owned("Package '");
                message.append(name.as_str());
                message.append("' not found in your dependencies.");
                assert(message@ =~= not_present_message(name@));
                assert(final(config)@ =~= old(config)@);
                return Planned {
                    actions,
                    result: Err(SopError::new(ErrorKind::NotPresent, message)),
                };
            }
        },
        None => {},
    }
    let mut updated: usize = 0;
    let mut i: usize = 0;
    assert(dependencies.entries() =~= updated_entries(entries, target, flags, 0));
    assert(cache@ =~= start.union(changed_names(entries, target, flags, 0)));
    while i < n
        invariant
            i <= n,
            n == list.len(),
            plain(list@) == entries,
            distinct_names(entries),
            target == wanted(*package),
            flags == answers@,
            dependencies.entries() == updated_entries(entries, target, flags, i as int),
            plan(actions@) == seq![Action::EnsureModulesDir] + update_steps(
                start,
                entries,
                target,
                flags,
                i as int,
            ),
            cache@ == start.union(changed_names(entries, target, flags, i as int)),
            lines(report_lines@) == update_lines(entries, target, flags, i as int),
            updated == change_count(entries, target, flags, i as int),
            updated <= i,
        decreases n - i,
    {
        let ghost entry = entries[i as int];
        assert(entry == (list[i as int].name@, list[i as int].version@));
        let is_target = match package {
            Some(name) => same_text(list[i].name.as_str(), name.as_str()),
            None => true,
        };
        assert(is_target == targeted(entries, target, i as int));
        if is_target {
            let flag = if i < answers.len() {
                answers[i]
            } else {
                false
            };
            let version = check_for_update(
                list[i].name.as_str(),
                list[i].version.as_str(),
                flag,
            );
            assert(version@ == settled(entries, flags, i as int));
            if same_text(version.as_str(), list[i].version.as_str()) {
                let ghost told = lines(report_lines@);
                report_lines.push(
                    UpdateLine {
                        package: list[i].name.clone(),
                        from: list[i].version.clone(),
                        to: None,
                    },
                );
                assert(lines(report_lines@) =~= told.push(
                    Line { package: entry.0, from: entry.1, to: None },
                ));
                assert(dependencies.entries() =~= updated_entries(entries, target, flags, i + 1));
                assert(cache@ =~= start.union(changed_names(entries, target, flags, i + 1)));
            } else {
                let ghost current = dependencies.entries();
                assert(distinct_names(current)) by {
                    assert forall|a: int, b: int| 0 <= a < b < current.len() implies (
                    #[trigger] current[a]).0 != (#[trigger] current[b]).0 by {
                        assert(entries[a].0 != entries[b].0);
                    }
                }
                proof {
                    assert(current[i as int].0 == entry.0);
                    lemma_position(current, i as int);
                }
                dependencies.insert(list[i].name.clone(), version.clone());
                assert(dependencies.entries() =~= updated_entries(entries, target, flags, i + 1));
                assert(cache@.contains(entry.0) == start.contains(entry.0)) by {
                    if changed_names(entries, target, flags, i as int).contains(entry.0) {
                        let k = choose|k: int|
                            0 <= k < i && k < entries.len() && (#[trigger] entries[k]).0
                                == entry.0 && changes(entries, target, flags, k);
                        assert(entries[k].0 != entries[i as int].0);
                    }
                }
                let mut steps = reinstall_package(
                    cache,
                    list[i].name.as_str(),
                    version.as_str(),
                );
                let ghost head = plan(actions@);
                let ghost tail = plan(steps@);
                actions.append(&mut steps);
                assert(plan(actions@) =~= head + tail);
                assert(cache@ =~= start.union(changed_names(entries, target, flags, i + 1))) by {
                    assert forall|name: Seq<char>|
                        changed_names(entries, target, flags, i + 1).contains(name) <==> (
                        changed_names(entries, target, flags, i as int).contains(name) || name
                            == entry.0) by {
                        if name == entry.0 {
                            assert(entries[i as int].0 == name);
                        }
                    }
                }
                let ghost told = lines(report_lines@);
                report_lines.push(
                    UpdateLine {
                        package: list[i].name.clone(),
                        from: list[i].version.clone(),
                        to: Some(version),
                    },
                );
                assert(lines(report_lines@) =~= told.push(
                    Line {
                        package: entry.0,
                        from: entry.1,
                        to: Some(settled(entries, flags, i as int)),
                    },
                ));
                updated = updated + 1;
            }
        } else {
            assert(dependencies.entries() =~= updated_entries(entries, target, flags, i + 1));
            assert(cache@ =~= start.union(changed_names(entries, target, flags, i + 1)));
        }
        i = i + 1;
    }
    config.dependencies = Some(dependencies);
    let ghost head = plan(actions@);
    actions.push(FsAction::WriteManifest);
    assert(plan(actions@) =~= head + seq![Action::WriteManifest]);
    Planned { actions, result: Ok(UpdateReport { lines: report_lines, updated }) }
}

/// Whether the answers are such as an oracle gives on the dependencies:
/// one for each dependency, and "nothing newer" wherever the oracle is not
/// asked, which is for a dependency that the update is not meant for or
/// that records no version.
pub open spec fn asked(entries: Entries, package: Option<Seq<char>>, answers: Seq<bool>) -> bool {
    &&& answers.len() == entries.len()
    &&& forall|i: int|
        0 <= i < answers.len() && #[trigger] answers[i] ==> targeted(entries, package, i)
            && is_concrete(entries[i].1)
}

fn ask<O: UpdateOracle>(config: &SopToml, package: &Option<String>, oracle: &mut O) -> (answers:
    Vec<bool>)
    ensures
        asked(config.entries(), wanted(*package), answers@),
{
    let ghost entries = config.entries();
    let list: Vec<Dependency> = match &config.dependencies {
        Some(map) => map.to_vec(),
        None => Vec::new(),
    };
    assert(plain(list@) =~= entries);
    let mut answers: Vec<bool> = Vec::new();
    let mut i: usize = 0;
    while i < list.len()
        invariant
            i <= list.len(),
            plain(list@) == entries,
            answers.len() == i,
            forall|k: int|
                0 <= k < i && #[trigger] answers[k] ==> targeted(entries, wanted(*package), k)
                    && is_concrete(entries[k].1),
        decreases list.len() - i,
    {
        assert(entries[i as int] == (list[i as int].name@, list[i as int].version@));
        let is_target = match package {
            Some(name) => same_text(list[i].name.as_str(), name.as_str()),
            None => true,
        };
        let flag = if is_target && needs_registry(list[i].version.as_str()) {
            oracle.has_update(list[i].name.as_str(), list[i].version.as_str())
        } else {
            false
        };
        answers.push(flag);
        i = i + 1;
    }
    answers
}

/// Updates `package`, or every dependency where none is named. The
/// oracle is asked about each dependency that the update is meant for
/// and that records a version, in the manifest's order; whatever it
/// answers, the outcome is that of an update with those answers.
pub fn execute<O: UpdateOracle>(
    config: &mut SopToml,
    cache: &mut ModuleCache,
    package: &Option<String>,
    oracle: &mut O,
) -> (updated: Planned<UpdateReport>)
    ensures
        exists|answers: Seq<bool>|
            asked(old(config).entries(), wanted(*package), answers) && #[trigger] is_update(
                old(config)@,
                old(cache)@,
                wanted(*package),
                answers,
                final(config)@,
                final(cache)@,
                plan(updated.actions@),
                updated.result,
            ),
{
    let answers = ask(config, package, oracle);
    execute_with(config, cache, package, &answers)
}

} // verus!
