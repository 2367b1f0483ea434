//! Theme collections: maps from a theme's name to its definition, with the
//! merge that lays one collection over another.

use vstd::prelude::*;

verus! {

/// The map that a list of named definitions stands for: each entry in turn
/// is written into the map, so that a later entry replaces an earlier one of
/// the same name.
spec fn entries_map<D>(entries: Seq<(String, D)>) -> Map<Seq<char>, D>
    decreases entries.len(),
{
    if entries.len() == 0 {
        Map::empty()
    } else {
        entries_map(entries.drop_last()).insert(entries.last().0@, entries.last().1)
    }
}

/// No two entries carry the same name.
spec fn distinct_names<D>(entries: Seq<(String, D)>) -> bool {
    forall|i: int, j: int|
        0 <= i < j < entries.len() ==> (#[trigger] entries[i]).0@ != (#[trigger] entries[j]).0@
}

/// A name that no entry carries is not in the map.
proof fn lemma_absent_name<D>(entries: Seq<(String, D)>, name: Seq<char>)
    requires
        forall|i: int| 0 <= i < entries.len() ==> (#[trigger] entries[i]).0@ != name,
    ensures
        !entries_map(entries).contains_key(name),
    decreases entries.len(),
{
    if entries.len() > 0 {
        lemma_absent_name(entries.drop_last(), name);
    }
}

/// With distinct names, each entry's definition is the one the map holds
/// under its name.
proof fn lemma_entry_in_map<D>(entries: Seq<(String, D)>, i: int)
    requires
        distinct_names(entries),
        0 <= i < entries.len(),
    ensures
        entries_map(entries).contains_key(entries[i].0@),
        entries_map(entries)[entries[i].0@] == entries[i].1,
    decreases entries.len(),
{
    if i < entries.len() - 1 {
        lemma_entry_in_map(entries.drop_last(), i);
    }
}

/// With distinct names, replacing the definition of the entry at `i` is the
/// same as writing the new definition into the map under that entry's name.
proof fn lemma_replace_entry<D>(entries: Seq<(String, D)>, i: int, name: String, theme: D)
    requires
        distinct_names(entries),
        0 <= i < entries.len(),
        entries[i].0@ == name@,
    ensures
        distinct_names(entries.update(i, (name, theme))),
        entries_map(entries.update(i, (name, theme))) == entries_map(entries).insert(
            name@,
            theme,
        ),
    decreases entries.len(),
{
    let updated = entries.update(i, (name, theme));
    if i == entries.len() - 1 {
        assert(updated.drop_last() == entries.drop_last());
    } else {
        lemma_replace_entry(entries.drop_last(), i, name, theme);
        assert(updated.drop_last() == entries.drop_last().update(i, (name, theme)));
    }
}

/// With distinct names, the map has as many keys as there are entries.
proof fn lemma_map_len<D>(entries: Seq<(String, D)>)
    requires
        distinct_names(entries),
    ensures
        entries_map(entries).dom().finite(),
        entries_map(entries).dom().len() == entries.len(),
    decreases entries.len(),
{
    if entries.len() > 0 {
        let rest = entries.drop_last();
        lemma_map_len(rest);
        lemma_absent_name(rest, entries.last().0@);
    }
}

/// A collection of themes, each under a name of its own.
pub struct Themes<D> {
    entries: Vec<(String, D)>,
}

impl<D> View for Themes<D> {
    type V = Map<Seq<char>, D>;

    closed spec fn view(&self) -> Map<Seq<char>, D> {
        entries_map(self.entries@)
    }
}

impl<D> Themes<D> {
    #[verifier::type_invariant]
    spec fn well_formed(self) -> bool {
        distinct_names(self.entries@)
    }

    /// A collection without themes.
    pub fn new() -> (themes: Self)
        ensures
            themes@ == Map::<Seq<char>, D>::empty(),
    {
        Themes { entries: Vec::new() }
    }

    /// The position of the entry called `name`, if there is one.
    fn position(&self, name: &String) -> (found: Option<usize>)
        ensures
            match found {
                Some(i) => i < self.entries@.len() && self.entries@[i as int].0@ == name@,
                None => forall|i: int|
                    0 <= i < self.entries@.len() ==> (#[trigger] self.entries@[i]).0@ != name@,
            },
    {
        let mut i: usize = 0;
        while i < self.entries.len()
            invariant
                i <= self.entries@.len(),
                forall|k: int| 0 <= k < i ==> (#[trigger] self.entries@[k]).0@ != name@,
            decreases self.entries@.len() - i,
        {
            if self.entries[i].0 == *name {
                return Some(i);
            }
            i += 1;
        }
        None
    }

    /// How many themes the collection holds.
    pub fn len(&self) -> (count: usize)
        ensures
            self@.dom().finite(),
            count == self@.dom().len(),
    {
        proof {
            use_type_invariant(self);
            lemma_map_len(self.entries@);
        }
        self.entries.len()
    }

    /// Whether a theme is stored under `name`.
    pub fn contains(&self, name: &str) -> (present: bool)
        ensures
            present == self@.contains_key(name@),
    {
        self.get(name).is_some()
    }

    /// The theme stored under `name`, if there is one.
    pub fn get(&self, name: &str) -> (theme: Option<&D>)
        ensures
            match theme {
                Some(definition) => self@.contains_key(name@) && *definition == self@[name@],
                None => !self@.contains_key(name@),
            },
    {
        let key = name.to_owned();
        match self.position(&key) {
            Some(i) => {
                proof {
                    use_type_invariant(self);
                    lemma_entry_in_map(self.entries@, i as int);
                }
                Some(&self.entries[i].1)
            },
            None => {
                proof {
                    lemma_absent_name(self.entries@, name@);
                }
                None
            },
        }
    }

    /// Stores `theme` under `name`, in place of any theme already stored
    /// under that name. Every other theme stays as it is.
    pub fn insert(&mut self, name: String, theme: D)
        ensures
            final(self)@ == old(self)@.insert(name@, theme),
    {
        proof {
            use_type_invariant(&*self);
        }
        let found = self.position(&name);
        let mut entries: Vec<(String, D)> = Vec::new();
        core::mem::swap(&mut self.entries, &mut entries);
        match found {
            Some(i) => {
                proof {
                    lemma_replace_entry(entries@, i as int, name, theme);
                }
                entries[i] = (name, theme);
            },
            None => {
                proof {
                    assert(entries@.push((name, theme)).drop_last() == entries@);
                }
                entries.push((name, theme));
            },
        }
        core::mem::swap(&mut self.entries, &mut entries);
    }

    /// Lays `other` over this collection: the result holds every theme of
    /// both, and where both define a name, the definition of `other`.
    pub fn merge(self, other: Themes<D>) -> (merged: Themes<D>)
        ensures
            merged@ == self@.union_prefer_right(other@),
    {
        let ghost base = self@;
        let ghost over = other.entries@;
        let mut merged = self;
        proof {
        }
        for entry in iter: other.entries
            invariant
                iter.seq() == over,
                merged@ == base.union_prefer_right(entries_map(over.take(iter.index() as int))),
        {
            proof {
                let done = over.take(iter.index() as int);
                let next = over.take(iter.index() + 1);
                assert(next.drop_last() == done);
                assert(base.union_prefer_right(entries_map(done)).insert(entry.0@, entry.1)
                    =~= base.union_prefer_right(entries_map(next)));
            }
            merged.insert(entry.0, entry.1);
        }
        proof {
            assert(over.take(over.len() as int) == over);
        }
        merged
    }
}

impl<D> Default for Themes<D> {
    /// A collection without themes.
    fn default() -> (themes: Self)
        ensures
            themes@ == Map::<Seq<char>, D>::empty(),
    {
        Themes::new()
    }
}

} // verus!
