//! A table from names to values, in which no name stands twice.

use vstd::prelude::*;

verus! {

/// Whether no two entries of `entries` have the same name.
pub open spec fn distinct_names<V>(entries: Seq<(String, V)>) -> bool {
    forall|i: int, j: int|
        0 <= i < j < entries.len() ==> (#[trigger] entries[i]).0@ != (#[trigger] entries[j]).0@
}

/// Whether `entries` has an entry at `i` whose name is `name`.
pub open spec fn named_at<V>(entries: Seq<(String, V)>, name: Seq<char>, i: int) -> bool {
    0 <= i < entries.len() && entries[i].0@ == name
}

/// The map from each name in `entries` to the value beside it.
pub open spec fn entries_map<V>(entries: Seq<(String, V)>) -> Map<Seq<char>, V> {
    Map::new(
        |name: Seq<char>| exists|i: int| named_at(entries, name, i),
        |name: Seq<char>| entries[choose|i: int| named_at(entries, name, i)].1,
    )
}

/// Adding an entry under a new name adds that name to the map.
pub proof fn lemma_entries_push<V>(entries: Seq<(String, V)>, entry: (String, V))
    requires
        distinct_names(entries),
        !entries_map(entries).contains_key(entry.0@),
    ensures
        distinct_names(entries.push(entry)),
        entries_map(entries.push(entry)) == entries_map(entries).insert(entry.0@, entry.1),
{
    let after = entries.push(entry);
    assert forall|i: int, j: int| 0 <= i < j < after.len() implies (#[trigger] after[i]).0@ != (
    #[trigger] after[j]).0@ by {
        if j == entries.len() {
            assert(named_at(entries, after[i].0@, i));
        }
    }
    assert forall|name: Seq<char>|
        entries_map(after).contains_key(name) == #[trigger] entries_map(entries).insert(
            entry.0@,
            entry.1,
        ).contains_key(name) by {
        if entries_map(after).contains_key(name) {
            let i = choose|i: int| named_at(after, name, i);
            if i < entries.len() {
                assert(named_at(entries, name, i));
            }
        }
        if entries_map(entries).contains_key(name) {
            let i = choose|i: int| named_at(entries, name, i);
            assert(named_at(after, name, i));
        }
        if name == entry.0@ {
            assert(named_at(after, name, entries.len() as int));
        }
    }
    assert forall|name: Seq<char>| entries_map(after).contains_key(name) implies entries_map(
        after,
    )[name] == #[trigger] entries_map(entries).insert(entry.0@, entry.1)[name] by {
        let i = choose|i: int| named_at(after, name, i);
        if name == entry.0@ {
            if i < entries.len() {
                assert(named_at(entries, name, i));
            }
        } else {
            assert(named_at(entries, name, i));
        }
    }
}

/// Putting an entry with the same name in the place of another changes the
/// value under that name.
pub proof fn lemma_entries_update<V>(entries: Seq<(String, V)>, at: int, entry: (String, V))
    requires
        distinct_names(entries),
        named_at(entries, entry.0@, at),
    ensures
        distinct_names(entries.update(at, entry)),
        entries_map(entries.update(at, entry)) == entries_map(entries).insert(entry.0@, entry.1),
{
    let after = entries.update(at, entry);
    assert(distinct_names(after));
    assert forall|name: Seq<char>|
        entries_map(after).contains_key(name) == #[trigger] entries_map(entries).insert(
            entry.0@,
            entry.1,
        ).contains_key(name) by {
        if entries_map(after).contains_key(name) {
            let i = choose|i: int| named_at(after, name, i);
            assert(named_at(entries, name, i));
        }
        if entries_map(entries).contains_key(name) {
            let i = choose|i: int| named_at(entries, name, i);
            assert(named_at(after, name, i));
        }
    }
    assert forall|name: Seq<char>| entries_map(after).contains_key(name) implies entries_map(
        after,
    )[name] == #[trigger] entries_map(entries).insert(entry.0@, entry.1)[name] by {
        let i = choose|i: int| named_at(after, name, i);
        if name != entry.0@ {
            assert(named_at(entries, name, i));
        }
    }
}

/// Two sequences of entries with the same names in the same places, of
/// which the first has no name twice: nor has the second, both give maps of
/// the same names, and under each name stand the values of one place.
pub proof fn lemma_same_names<V>(first: Seq<(String, V)>, second: Seq<(String, V)>)
    requires
        distinct_names(first),
        first.len() == second.len(),
        forall|k: int| 0 <= k < first.len() ==> (#[trigger] second[k]).0@ == first[k].0@,
    ensures
        distinct_names(second),
        entries_map(second).dom() == entries_map(first).dom(),
        forall|name: Seq<char>, k: int| #[trigger]
            named_at(first, name, k) ==> entries_map(first)[name] == first[k].1 && entries_map(
                second,
            )[name] == second[k].1,
{
    assert forall|i: int, j: int| 0 <= i < j < second.len() implies (#[trigger] second[i]).0@ != (
    #[trigger] second[j]).0@ by {
        assert(first[i].0@ != first[j].0@);
    }
    assert forall|name: Seq<char>|
        entries_map(second).contains_key(name) == entries_map(first).contains_key(name) by {
        if entries_map(second).contains_key(name) {
            let i = choose|i: int| named_at(second, name, i);
            assert(named_at(first, name, i));
        }
        if entries_map(first).contains_key(name) {
            let i = choose|i: int| named_at(first, name, i);
            assert(named_at(second, name, i));
        }
    }
    assert(entries_map(second).dom() =~= entries_map(first).dom());
    assert forall|name: Seq<char>, k: int| #[trigger] named_at(first, name, k) implies entries_map(
        first,
    )[name] == first[k].1 && entries_map(second)[name] == second[k].1 by {
        assert(named_at(second, name, k));
        let i = choose|i: int| named_at(first, name, i);
        let j = choose|j: int| named_at(second, name, j);
        if i != k {
            assert(first[i].0@ != first[k].0@);
        }
        if j != k {
            assert(second[j].0@ != second[k].0@);
        }
    }
}

/// A table from names to values. No name stands in it twice.
#[derive(Debug)]
pub struct Table<V> {
    entries: Vec<(String, V)>,
}

impl<V> View for Table<V> {
    type V = Map<Seq<char>, V>;

    closed spec fn view(&self) -> Map<Seq<char>, V> {
        entries_map(self.entries@)
    }
}

impl<V> Table<V> {
    #[verifier::type_invariant]
    spec fn well_formed(&self) -> bool {
        distinct_names(self.entries@)
    }

    /// The empty table.
    pub fn new() -> (r: Self)
        ensures
            r@ == Map::<Seq<char>, V>::empty(),
    {
        let r = Table { entries: Vec::new() };
        r
    }

    fn position(&self, name: &str) -> (r: Option<usize>)
        ensures
            match r {
                Some(i) => named_at(self.entries@, name@, i as int),
                None => !self@.contains_key(name@),
            },
    {
        let mut i: usize = 0;
        while i < self.entries.len()
            invariant
                i <= self.entries@.len(),
                forall|k: int| 0 <= k < i ==> !named_at(self.entries@, name@, k),
            decreases self.entries@.len() - i,
        {
            if crate::text::same_text(self.entries[i].0.as_str(), name) {
                return Some(i);
            }
            i += 1;
        }
        None
    }

    /// The value under `name`, if the table has the name.
    pub fn get(&self, name: &str) -> (r: Option<&V>)
        ensures
            match r {
                Some(value) => self@.contains_key(name@) && self@[name@] == *value,
                None => !self@.contains_key(name@),
            },
    {
        proof {
            use_type_invariant(self);
        }
        match self.position(name) {
            Some(i) => Some(&self.entries[i].1),
            None => None,
        }
    }

    /// Whether the table has `name`.
    pub fn contains_key(&self, name: &str) -> (r: bool)
        ensures
            r == self@.contains_key(name@),
    {
        self.position(name).is_some()
    }

    /// Whether the table has no entry.
    pub fn is_empty(&self) -> (r: bool)
        ensures
            r == (self@ == Map::<Seq<char>, V>::empty()),
    {
        proof {
            if self.entries@.len() > 0 {
                assert(named_at(self.entries@, self.entries@[0].0@, 0));
                assert(self@.contains_key(self.entries@[0].0@));
            } else {
                assert(self@ =~= Map::<Seq<char>, V>::empty());
            }
        }
        self.entries.len() == 0
    }

    fn with(self, name: String, value: V) -> (r: Self)
        ensures
            r@ == self@.insert(name@, value),
    {
        proof {
            use_type_invariant(&self);
        }
        let found = self.position(name.as_str());
        let mut entries = self.entries;
        match found {
            Some(i) => {
                proof {
                    lemma_entries_update(entries@, i as int, (name, value));
                }
                entries.set(i, (name, value));
            },
            None => {
                proof {
                    lemma_entries_push(entries@, (name, value));
                }
                entries.push((name, value));
            },
        }
        Table { entries }
    }

    /// Puts `value` under `name`, in the place of the value that was there,
    /// if any.
    pub fn insert(&mut self, name: String, value: V)
        ensures
            final(self)@ == old(self)@.insert(name@, value),
    {
        let mut taken = Table::new();
        core::mem::swap(self, &mut taken);
        *self = taken.with(name, value);
    }

    /// Puts every entry of `other` into this table; where both have a name,
    /// the value of `other` stays.
    pub fn extend(&mut self, other: Table<V>)
        ensures
            final(self)@ == old(self)@.union_prefer_right(other@),
    {
        proof {
            use_type_invariant(&other);
        }
        let ghost before = self@;
        let ghost all = other.entries@;
        for entry in it: other.entries
            invariant
                it.seq() == all,
                distinct_names(all),
                self@ == before.union_prefer_right(entries_map(all.take(it.index() as int))),
        {
            proof {
                let n = it.index() as int;
                assert(all.take(n + 1) =~= all.take(n).push(all[n]));
                assert(!entries_map(all.take(n)).contains_key(all[n].0@)) by {
                    if entries_map(all.take(n)).contains_key(all[n].0@) {
                        let k = choose|k: int| named_at(all.take(n), all[n].0@, k);
                        assert(all[k].0@ != all[n].0@);
                    }
                }
                assert(distinct_names(all.take(n)));
                lemma_entries_push(all.take(n), all[n]);
            }
            self.insert(entry.0, entry.1);
        }
        assert(all.take(all.len() as int) =~= all);
    }

    /// The entries, handed out: each name once, with its value.
    pub fn into_entries(self) -> (r: Vec<(String, V)>)
        ensures
            distinct_names(r@),
            entries_map(r@) == self@,
    {
        proof {
            use_type_invariant(&self);
        }
        self.entries
    }

    /// The entries: each name once, with its value.
    pub fn entries(&self) -> (r: &Vec<(String, V)>)
        ensures
            distinct_names(r@),
            entries_map(r@) == self@,
    {
        proof {
            use_type_invariant(self);
        }
        &self.entries
    }
}

impl<V: Clone> Clone for Table<V> {
    /// A table with the same names, and under each name a clone of the
    /// value that stands under it here.
    fn clone(&self) -> (r: Self)
        ensures
            r@.dom() == self@.dom(),
            forall|name: Seq<char>|
                self@.contains_key(name) ==> cloned(self@[name], #[trigger] r@[name]),
    {
        proof {
            use_type_invariant(self);
        }
        let mut entries: Vec<(String, V)> = Vec::new();
        let mut i: usize = 0;
        while i < self.entries.len()
            invariant
                i <= self.entries.len(),
                entries.len() == i,
                forall|k: int|
                    0 <= k < i ==> (#[trigger] entries@[k]).0@ == self.entries@[k].0@ && cloned(
                        self.entries@[k].1,
                        entries@[k].1,
                    ),
            decreases self.entries.len() - i,
        {
            entries.push((self.entries[i].0.clone(), self.entries[i].1.clone()));
            i += 1;
        }
        proof {
            lemma_same_names(self.entries@, entries@);
        }
        Table { entries }
    }
}

} // verus!
