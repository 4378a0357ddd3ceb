//! The dependency map of a manifest: package names, each with the version
//! specifier that the project asks for.
//!
//! The map keeps its entries in the order in which they were added, so
//! that everything computed from it is the same on every run. A name
//! occurs at most once.

use crate::text::same_text;
use vstd::prelude::*;
use vstd::string::*;

verus! {

/// One dependency: a package and the specifier recorded for it.
#[derive(Clone, Debug, PartialEq, Eq)]
pub struct Dependency {
    pub name: String,
    pub version: String,
}

/// The entries of a map as plain values: `(name, specifier)`, in order.
pub type Entries = Seq<(Seq<char>, Seq<char>)>;

/// Whether some entry has the name.
pub open spec fn has_name(entries: Entries, name: Seq<char>) -> bool {
    exists|i: int| 0 <= i < entries.len() && (#[trigger] entries[i]).0 == name
}

/// Whether no name occurs twice.
pub open spec fn distinct_names(entries: Entries) -> bool {
    forall|i: int, j: int|
        0 <= i < j < entries.len() ==> (#[trigger] entries[i]).0 != (#[trigger] entries[j]).0
}

/// Where the entry with the name stands, if there is one.
pub open spec fn position(entries: Entries, name: Seq<char>) -> int {
    choose|i: int| 0 <= i < entries.len() && (#[trigger] entries[i]).0 == name
}

/// The specifier recorded for the name, if there is one.
pub open spec fn version_for(entries: Entries, name: Seq<char>) -> Option<Seq<char>> {
    if has_name(entries, name) {
        Some(entries[position(entries, name)].1)
    } else {
        None
    }
}

/// The entries after `name` is recorded with `version`: an entry of that
/// name has its specifier replaced where it stands, a new name goes last.
pub open spec fn with_entry(entries: Entries, name: Seq<char>, version: Seq<char>) -> Entries {
    if has_name(entries, name) {
        entries.update(position(entries, name), (name, version))
    } else {
        entries.push((name, version))
    }
}

/// The entries without the one of that name; the others keep their order.
pub open spec fn without_entry(entries: Entries, name: Seq<char>) -> Entries {
    if has_name(entries, name) {
        entries.remove(position(entries, name))
    } else {
        entries
    }
}

/// The entries as a map from name to specifier.
pub open spec fn as_map(entries: Entries) -> Map<Seq<char>, Seq<char>> {
    Map::new(
        |name: Seq<char>| has_name(entries, name),
        |name: Seq<char>| entries[position(entries, name)].1,
    )
}

/// With distinct names, an entry stands where `position` says.
pub proof fn lemma_position(entries: Entries, i: int)
    requires
        distinct_names(entries),
        0 <= i < entries.len(),
    ensures
        has_name(entries, entries[i].0),
        position(entries, entries[i].0) == i,
{
    let name = entries[i].0;
    let p = position(entries, name);
    assert(0 <= p < entries.len() && entries[p].0 == name);
    if p < i {
        assert(entries[p].0 != entries[i].0);
    } else if i < p {
        assert(entries[i].0 != entries[p].0);
    }
}

/// The dependencies of a project, by package name.
#[derive(Debug, PartialEq, Eq)]
pub struct DependencyMap {
    entries: Vec<Dependency>,
}

/// A list of dependencies as plain values.
pub open spec fn plain(entries: Seq<Dependency>) -> Entries {
    entries.map_values(|d: Dependency| (d.name@, d.version@))
}

impl DependencyMap {
    #[verifier::type_invariant]
    spec fn names_occur_once(self) -> bool {
        distinct_names(plain(self.entries@))
    }

    /// The entries as plain values, in the order they were added.
    pub closed spec fn entries(&self) -> Entries {
        plain(self.entries@)
    }

    /// The map from name to specifier.
    pub open spec fn view(&self) -> Map<Seq<char>, Seq<char>> {
        as_map(self.entries())
    }

    /// A map without entries.
    pub fn new() -> (map: DependencyMap)
        ensures
            map.entries() == Seq::<(Seq<char>, Seq<char>)>::empty(),
    {
        let map = DependencyMap { entries: Vec::new() };
        assert(map.entries() =~= Seq::<(Seq<char>, Seq<char>)>::empty());
        map
    }

    /// The map that holds the listed entries in their order, if no name is
    /// listed twice.
    pub fn from_entries(list: &Vec<Dependency>) -> (map: Option<DependencyMap>)
        ensures
            map is Some <==> distinct_names(plain(list@)),
            map matches Some(m) ==> m.entries() == plain(list@),
    {
        let mut map = DependencyMap::new();
        let mut i: usize = 0;
        while i < list.len()
            invariant
                i <= list.len(),
                map.entries() == plain(list@).take(i as int),
                distinct_names(map.entries()),
            decreases list.len() - i,
        {
            let ghost seen = plain(list@).take(i as int);
            let ghost entry = plain(list@)[i as int];
            if map.contains_key(list[i].name.as_str()) {
                proof {
                    let j = position(seen, entry.0);
                    assert(seen[j].0 == entry.0);
                    assert(plain(list@)[j].0 == plain(list@)[i as int].0);
                }
                return None;
            }
            map.insert(list[i].name.clone(), list[i].version.clone());
            assert(plain(list@).take(i + 1) =~= seen.push(entry));
            i = i + 1;
        }
        assert(plain(list@).take(i as int) == plain(list@));
        Some(map)
    }

    /// How many dependencies there are.
    pub fn len(&self) -> (n: usize)
        ensures
            n == self.entries().len(),
            distinct_names(self.entries()),
    {
        proof {
            use_type_invariant(self);
        }
        self.entries.len()
    }

    /// Whether there is no dependency.
    pub fn is_empty(&self) -> (empty: bool)
        ensures
            empty == (self.entries().len() == 0),
    {
        self.entries.len() == 0
    }

    /// The entry at `index`, counting from the one added first.
    pub fn entry(&self, index: usize) -> (dependency: &Dependency)
        requires
            index < self.entries().len(),
        ensures
            (dependency.name@, dependency.version@) == self.entries()[index as int],
    {
        &self.entries[index]
    }

    fn find(&self, name: &str) -> (found: Option<usize>)
        ensures
            distinct_names(self.entries()),
            found is Some <==> has_name(self.entries(), name@),
            found matches Some(i) ==> i < self.entries().len() && i == position(
                self.entries(),
                name@,
            ) && self.entries()[i as int].0 == name@,
    {
        proof {
            use_type_invariant(self);
        }
        let mut i: usize = 0;
        while i < self.entries.len()
            invariant
                i <= self.entries.len(),
                distinct_names(self.entries()),
                forall|j: int| 0 <= j < i ==> (#[trigger] self.entries()[j]).0 != name@,
            decreases self.entries.len() - i,
        {
            if same_text(self.entries[i].name.as_str(), name) {
                proof {
                    lemma_position(self.entries(), i as int);
                }
                return Some(i);
            }
            i = i + 1;
        }
        None
    }

    /// The entries, in the order they were added.
    pub fn to_vec(&self) -> (list: Vec<Dependency>)
        ensures
            plain(list@) == self.entries(),
            distinct_names(self.entries()),
    {
        proof {
            use_type_invariant(self);
        }
        let mut list: Vec<Dependency> = Vec::new();
        let mut i: usize = 0;
        while i < self.entries.len()
            invariant
                i <= self.entries.len(),
                plain(list@) == plain(self.entries@).take(i as int),
            decreases self.entries.len() - i,
        {
            let name = self.entries[i].name.clone();
            let version = self.entries[i].version.clone();
            let ghost copied = plain(list@);
            list.push(Dependency { name, version });
            assert(plain(list@) =~= copied.push(plain(self.entries@)[i as int]));
            assert(plain(self.entries@).take(i + 1) =~= copied.push(plain(self.entries@)[i as int]));
            i = i + 1;
        }
        assert(plain(self.entries@).take(i as int) == plain(self.entries@));
        list
    }

    /// Whether the package is a dependency.
    pub fn contains_key(&self, name: &str) -> (present: bool)
        ensures
            present == has_name(self.entries(), name@),
    {
        self.find(name).is_some()
    }

    /// The specifier recorded for the package.
    pub fn get(&self, name: &str) -> (version: Option<&String>)
        ensures
            version is Some <==> has_name(self.entries(), name@),
            version matches Some(v) ==> Some(v@) == version_for(self.entries(), name@),
    {
        match self.find(name) {
            Some(i) => Some(&self.entries[i].version),
            None => None,
        }
    }

    /// Records `version` for the package and returns the specifier that
    /// was recorded before, if the package was a dependency already.
    pub fn insert(&mut self, name: String, version: String) -> (previous: Option<String>)
        ensures
            final(self).entries() == with_entry(old(self).entries(), name@, version@),
            distinct_names(final(self).entries()),
            previous is Some <==> has_name(old(self).entries(), name@),
            previous matches Some(v) ==> Some(v@) == version_for(old(self).entries(), name@),
    {
        let ghost before = self.entries();
        let found = self.find(name.as_str());
        let mut entries: Vec<Dependency> = Vec::new();
        std::mem::swap(&mut self.entries, &mut entries);
        assert(plain(entries@) == before);
        let previous = match found {
            Some(i) => {
                let replaced = entries.remove(i);
                entries.insert(i, Dependency { name, version });
                assert(plain(entries@) =~= before.update(i as int, (name@, version@)));
                assert(distinct_names(plain(entries@))) by {
                    assert forall|a: int, b: int| 0 <= a < b < plain(entries@).len() implies (
                    #[trigger] plain(entries@)[a]).0 != (#[trigger] plain(entries@)[b]).0 by {
                        assert(before[a].0 != before[b].0);
                    }
                }
                Some(replaced.version)
            },
            None => {
                entries.push(Dependency { name, version });
                assert(plain(entries@) =~= before.push((name@, version@)));
                assert(distinct_names(plain(entries@))) by {
                    assert forall|a: int, b: int| 0 <= a < b < plain(entries@).len() implies (
                    #[trigger] plain(entries@)[a]).0 != (#[trigger] plain(entries@)[b]).0 by {
                        if b < before.len() {
                            assert(before[a].0 != before[b].0);
                        } else {
                            assert(before[a].0 != name@);
                        }
                    }
                }
                None
            },
        };
        self.entries = entries;
        previous
    }

    /// Drops the package and returns the specifier that was recorded for
    /// it, if it was a dependency.
    pub fn remove(&mut self, name: &str) -> (previous: Option<String>)
        ensures
            final(self).entries() == without_entry(old(self).entries(), name@),
            distinct_names(final(self).entries()),
            previous is Some <==> has_name(old(self).entries(), name@),
            previous matches Some(v) ==> Some(v@) == version_for(old(self).entries(), name@),
    {
        let ghost before = self.entries();
        let found = self.find(name);
        let mut entries: Vec<Dependency> = Vec::new();
        std::mem::swap(&mut self.entries, &mut entries);
        assert(plain(entries@) == before);
        let previous = match found {
            Some(i) => {
                let removed = entries.remove(i);
                assert(plain(entries@) =~= before.remove(i as int));
                assert(distinct_names(plain(entries@))) by {
                    assert forall|a: int, b: int| 0 <= a < b < plain(entries@).len() implies (
                    #[trigger] plain(entries@)[a]).0 != (#[trigger] plain(entries@)[b]).0 by {
                        let a2 = if a < i { a } else { a + 1 };
                        let b2 = if b < i { b } else { b + 1 };
                        assert(before[a2].0 != before[b2].0);
                    }
                }
                Some(removed.version)
            },
            None => None,
        };
        self.entries = entries;
        previous
    }
}

impl Clone for DependencyMap {
    fn clone(&self) -> (copy: DependencyMap)
        ensures
            copy.entries() == self.entries(),
    {
        DependencyMap { entries: self.to_vec() }
    }
}

} // verus!
