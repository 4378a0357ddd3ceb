//! The module cache as the library sees it: the set of packages that have
//! a directory under `sop_modules`, and the file system operations that
//! change it.
//!
//! The library never touches the disk. It keeps the set of installed
//! names in step with the operations it hands out, and the caller carries
//! those out in order.

use crate::text::{owned, same_text};
use vstd::prelude::*;
use vstd::string::*;

verus! {

/// One file system operation, over plain values.
#[verifier::ext_equal]
pub enum Action {
    EnsureModulesDir,
    CreatePackageDir { package: Seq<char> },
    WriteMetadata { package: Seq<char>, content: Seq<char> },
    WriteLibrary { package: Seq<char>, content: Seq<char> },
    RemovePackageDir { package: Seq<char> },
    WriteManifest,
    EnsureSourceDir,
    WriteMainFile { content: Seq<char> },
}

/// One file system operation for the caller to carry out.
#[derive(Clone, Debug, PartialEq, Eq)]
pub enum FsAction {
    /// Create `sop_modules` unless something is at that path already.
    EnsureModulesDir,
    /// Create `sop_modules/<package>` and what is missing above it.
    CreatePackageDir { package: String },
    /// Write `content` to `sop_modules/<package>/sop.toml`.
    WriteMetadata { package: String, content: String },
    /// Write `content` to `sop_modules/<package>/lib.so`.
    WriteLibrary { package: String, content: String },
    /// Delete `sop_modules/<package>` with all it holds.
    RemovePackageDir { package: String },
    /// Write the manifest, as it stands when the command returns, to
    /// `sop.toml`.
    WriteManifest,
    /// Create `src` unless something is at that path already.
    EnsureSourceDir,
    /// Write `content` to `src/main.so`.
    WriteMainFile { content: String },
}

impl View for FsAction {
    type V = Action;

    open spec fn view(&self) -> Action {
        match *self {
            FsAction::EnsureModulesDir => Action::EnsureModulesDir,
            FsAction::CreatePackageDir { package } => Action::CreatePackageDir {
                package: package@,
            },
            FsAction::WriteMetadata { package, content } => Action::WriteMetadata {
                package: package@,
                content: content@,
            },
            FsAction::WriteLibrary { package, content } => Action::WriteLibrary {
                package: package@,
                content: content@,
            },
            FsAction::RemovePackageDir { package } => Action::RemovePackageDir {
                package: package@,
            },
            FsAction::WriteManifest => Action::WriteManifest,
            FsAction::EnsureSourceDir => Action::EnsureSourceDir,
            FsAction::WriteMainFile { content } => Action::WriteMainFile { content: content@ },
        }
    }
}

/// A list of operations as plain values.
pub open spec fn plan(actions: Seq<FsAction>) -> Seq<Action> {
    actions.map_values(|a: FsAction| a@)
}

/// The installed names after one operation was carried out.
pub open spec fn installed_after(installed: Set<Seq<char>>, action: Action) -> Set<Seq<char>> {
    match action {
        Action::CreatePackageDir { package } => installed.insert(package),
        Action::RemovePackageDir { package } => installed.remove(package),
        _ => installed,
    }
}

/// The installed names after the operations were carried out in order.
pub open spec fn installed_after_all(installed: Set<Seq<char>>, actions: Seq<Action>) -> Set<
    Seq<char>,
>
    decreases actions.len(),
{
    if actions.len() == 0 {
        installed
    } else {
        installed_after(installed_after_all(installed, actions.drop_last()), actions.last())
    }
}

/// Carrying out one list of operations and then another is carrying out
/// the two as one list.
pub proof fn lemma_installed_after_concat(
    installed: Set<Seq<char>>,
    first: Seq<Action>,
    second: Seq<Action>,
)
    ensures
        installed_after_all(installed, first + second) == installed_after_all(
            installed_after_all(installed, first),
            second,
        ),
    decreases second.len(),
{
    if second.len() == 0 {
        assert(first + second =~= first);
    } else {
        lemma_installed_after_concat(installed, first, second.drop_last());
        assert((first + second).drop_last() =~= first + second.drop_last());
        assert((first + second).last() == second.last());
    }
}

/// The set of packages that have a directory in the module cache. Two
/// caches are equal when they hold the same packages.
#[derive(Debug)]
pub struct ModuleCache {
    names: Vec<String>,
}

spec fn plain(names: Seq<String>) -> Seq<Seq<char>> {
    names.map_values(|s: String| s@)
}

impl View for ModuleCache {
    type V = Set<Seq<char>>;

    /// The names of the installed packages.
    closed spec fn view(&self) -> Set<Seq<char>> {
        Set::new(|name: Seq<char>| plain(self.names@).contains(name))
    }
}

impl ModuleCache {
    #[verifier::type_invariant]
    spec fn names_occur_once(self) -> bool {
        plain(self.names@).no_duplicates()
    }

    /// A cache without packages.
    pub fn new() -> (cache: ModuleCache)
        ensures
            cache@ == Set::<Seq<char>>::empty(),
    {
        let cache = ModuleCache { names: Vec::new() };
        assert(cache@ =~= Set::<Seq<char>>::empty());
        cache
    }

    fn find(&self, name: &str) -> (found: Option<usize>)
        ensures
            plain(self.names@).no_duplicates(),
            found is Some <==> self@.contains(name@),
            found matches Some(i) ==> i < self.names.len() && plain(self.names@)[i as int]
                == name@,
    {
        proof {
            use_type_invariant(self);
        }
        let mut i: usize = 0;
        while i < self.names.len()
            invariant
                i <= self.names.len(),
                plain(self.names@).no_duplicates(),
                forall|j: int| 0 <= j < i ==> (#[trigger] plain(self.names@)[j]) != name@,
            decreases self.names.len() - i,
        {
            if same_text(self.names[i].as_str(), name) {
                assert(plain(self.names@)[i as int] == name@);
                return Some(i);
            }
            i = i + 1;
        }
        None
    }

    /// Whether every package of this cache is in `other` too.
    pub fn is_subset_of(&self, other: &ModuleCache) -> (within: bool)
        ensures
            within == self@.subset_of(other@),
    {
        let mut i: usize = 0;
        while i < self.names.len()
            invariant
                i <= self.names.len(),
                forall|j: int| 0 <= j < i ==> other@.contains(#[trigger] plain(self.names@)[j]),
            decreases self.names.len() - i,
        {
            if !other.contains(self.names[i].as_str()) {
                assert(plain(self.names@)[i as int] == self.names@[i as int]@);
                assert(self@.contains(plain(self.names@)[i as int]));
                return false;
            }
            assert(plain(self.names@)[i as int] == self.names@[i as int]@);
            i = i + 1;
        }
        assert forall|n: Seq<char>| self@.contains(n) implies other@.contains(n) by {
            let k = choose|k: int| 0 <= k < plain(self.names@).len() && plain(self.names@)[k] == n;
            assert(other@.contains(plain(self.names@)[k]));
        }
        true
    }

    /// Whether the package has a directory in the cache.
    pub fn contains(&self, name: &str) -> (present: bool)
        ensures
            present == self@.contains(name@),
    {
        self.find(name).is_some()
    }

    /// Notes that the package has a directory. Returns whether that is
    /// news.
    pub fn insert(&mut self, name: &str) -> (added: bool)
        ensures
            final(self)@ == old(self)@.insert(name@),
            added == !old(self)@.contains(name@),
    {
        let ghost before = plain(self.names@);
        match self.find(name) {
            Some(_) => {
                assert(self@ =~= self@.insert(name@));
                false
            },
            None => {
                let mut names: Vec<String> = Vec::new();
                std::mem::swap(&mut self.names, &mut names);
                names.push(owned(name));
                assert(plain(names@) =~= before.push(name@));
                assert(plain(names@).no_duplicates()) by {
                    assert forall|a: int, b: int|
                        0 <= a < plain(names@).len() && 0 <= b < plain(names@).len() && a
                            != b implies plain(names@)[a] != plain(names@)[b] by {
                        if a < before.len() && b < before.len() {
                            assert(before[a] != before[b]);
                        } else if a < before.len() {
                            assert(before.contains(before[a]));
                        } else {
                            assert(before.contains(before[b]));
                        }
                    }
                }
                self.names = names;
                assert(self@ =~= old(self)@.insert(name@)) by {
                    assert forall|n: Seq<char>| self@.contains(n) <==> old(self)@.insert(
                        name@,
                    ).contains(n) by {
                        if self@.contains(n) {
                            let k = choose|k: int|
                                0 <= k < plain(self.names@).len() && plain(self.names@)[k] == n;
                            if k < before.len() {
                                assert(before[k] == n);
                            }
                        }
                        if before.contains(n) {
                            let k = choose|k: int| 0 <= k < before.len() && before[k] == n;
                            assert(plain(self.names@)[k] == n);
                        }
                        if n == name@ {
                            assert(plain(self.names@)[before.len() as int] == n);
                        }
                    }
                }
                true
            },
        }
    }

    /// Notes that the package has no directory any more. Returns whether
    /// it had one.
    pub fn remove(&mut self, name: &str) -> (removed: bool)
        ensures
            final(self)@ == old(self)@.remove(name@),
            removed == old(self)@.contains(name@),
    {
        let ghost before = plain(self.names@);
        match self.find(name) {
            Some(i) => {
                let mut names: Vec<String> = Vec::new();
                std::mem::swap(&mut self.names, &mut names);
                let _ = names.remove(i);
                assert(plain(names@) =~= before.remove(i as int));
                assert(plain(names@).no_duplicates()) by {
                    assert forall|a: int, b: int|
                        0 <= a < plain(names@).len() && 0 <= b < plain(names@).len() && a
                            != b implies plain(names@)[a] != plain(names@)[b] by {
                        let a2 = if a < i { a } else { a + 1 };
                        let b2 = if b < i { b } else { b + 1 };
                        assert(before[a2] != before[b2]);
                    }
                }
                self.names = names;
                assert(self@ =~= old(self)@.remove(name@)) by {
                    assert forall|n: Seq<char>| self@.contains(n) <==> old(self)@.remove(
                        name@,
                    ).contains(n) by {
                        if self@.contains(n) {
                            let k = choose|k: int|
                                0 <= k < plain(self.names@).len() && plain(self.names@)[k] == n;
                            let k2 = if k < i { k } else { k + 1 };
                            assert(before[k2] == n);
                            assert(before[k2] != before[i as int]);
                        }
                        if before.contains(n) && n != name@ {
                            let k = choose|k: int| 0 <= k < before.len() && before[k] == n;
                            let k2 = if k < i { k } else { k - 1 };
                            assert(plain(self.names@)[k2] == n);
                        }
                    }
                }
                true
            },
            None => {
                assert(self@ =~= self@.remove(name@));
                false
            },
        }
    }
}

impl PartialEq for ModuleCache {
    fn eq(&self, other: &ModuleCache) -> (same: bool) {
        let same = self.is_subset_of(other) && other.is_subset_of(self);
        assert(same == (self@ =~= other@));
        same
    }
}

impl vstd::std_specs::cmp::PartialEqSpecImpl for ModuleCache {
    open spec fn obeys_eq_spec() -> bool {
        true
    }

    open spec fn eq_spec(&self, other: &ModuleCache) -> bool {
        self@ == other@
    }
}

impl Eq for ModuleCache {

}

} // verus!
