//! A map from names to values.

use vstd::prelude::*;

verus! {

/// A map from names to values, kept as a list of entries in which no name occurs twice.
#[verifier::reject_recursive_types(V)]
pub struct NameMap<V> {
    entries: Vec<(String, V)>,
}

impl<V> NameMap<V> {
    /// The entry at `i` is the one for `name`.
    spec fn is_at(self, name: Seq<char>, i: int) -> bool {
        0 <= i < self.entries@.len() && self.entries@[i].0@ == name
    }

    /// No name occurs twice.
    pub closed spec fn wf(self) -> bool {
        forall|i: int, j: int|
            #![trigger self.entries@[i], self.entries@[j]]
            0 <= i < j < self.entries@.len() ==> self.entries@[i].0@ != self.entries@[j].0@
    }

    /// The names, in the order in which the entries are kept.
    pub closed spec fn names(self) -> Seq<Seq<char>> {
        self.entries@.map_values(|e: (String, V)| e.0@)
    }

    /// The values by name.
    pub closed spec fn view(&self) -> Map<Seq<char>, V> {
        Map::new(
            |name: Seq<char>| exists|i: int| self.is_at(name, i),
            |name: Seq<char>| self.entries@[choose|i: int| self.is_at(name, i)].1,
        )
    }

    /// What the entry at `i` contributes to the map.
    proof fn lemma_entry(self, i: int)
        requires
            self.wf(),
            0 <= i < self.entries@.len(),
        ensures
            self@.contains_key(self.entries@[i].0@),
            self@[self.entries@[i].0@] == self.entries@[i].1,
    {
        let name = self.entries@[i].0@;
        assert(self.is_at(name, i));
        let k = choose|k: int| self.is_at(name, k);
        assert(k == i);
    }

    /// Two maps with the same names in the same order have the same domain.
    proof fn lemma_domain(self, other: Self)
        requires
            self.names() == other.names(),
        ensures
            self@.dom() == other@.dom(),
    {
        assert(self.names().len() == self.entries@.len());
        assert(other.names().len() == other.entries@.len());
        assert forall|name: Seq<char>| self@.contains_key(name) == other@.contains_key(name) by {
            if self@.contains_key(name) {
                let i = choose|i: int| self.is_at(name, i);
                assert(self.names()[i] == other.names()[i]);
                assert(other.is_at(name, i));
            }
            if other@.contains_key(name) {
                let i = choose|i: int| other.is_at(name, i);
                assert(self.names()[i] == other.names()[i]);
                assert(self.is_at(name, i));
            }
        }
        assert(self@.dom() =~= other@.dom());
    }

    /// The two maps have the same entries, but for the value of the one at `i`.
    spec fn differs_at(self, other: Self, i: int) -> bool {
        &&& 0 <= i < self.entries@.len()
        &&& other.entries@.len() == self.entries@.len()
        &&& other.entries@[i].0 == self.entries@[i].0
        &&& forall|j: int| 0 <= j < self.entries@.len() && j != i ==> other.entries@[j] == self.entries@[j]
    }

    /// Changing the value of one entry changes the map at that entry's name only.
    proof fn lemma_update(self, other: Self, i: int)
        requires
            self.wf(),
            self.differs_at(other, i),
        ensures
            other.wf(),
            other.names() == self.names(),
            other@ == self@.insert(self.entries@[i].0@, other.entries@[i].1),
    {
        assert(other.wf()) by {
            assert forall|j: int, k: int|
                #![trigger other.entries@[j], other.entries@[k]]
                0 <= j < k < other.entries@.len() implies other.entries@[j].0@ != other.entries@[k].0@ by {
                assert(self.entries@[j].0@ != self.entries@[k].0@);
            }
        }
        assert(other.names() =~= self.names());
        self.lemma_domain(other);
        self.lemma_entry(i);
        let updated = self@.insert(self.entries@[i].0@, other.entries@[i].1);
        assert(other@.dom() =~= updated.dom());
        assert forall|name: Seq<char>| other@.contains_key(name) implies other@[name] == updated[name] by {
            let j = choose|j: int| self.is_at(name, j);
            assert(self@.contains_key(name));
            self.lemma_entry(j);
            other.lemma_entry(j);
        }
        assert(other@ =~= updated);
    }

    /// The names of the entries are the names of the map, each once.
    pub proof fn lemma_names(self)
        requires
            self.wf(),
        ensures
            self.names().no_duplicates(),
            self.names().to_set() == self@.dom(),
            self.names().len() == self@.dom().len(),
            self@.dom().finite(),
    {
        let names = self.names();
        assert forall|i: int, j: int| 0 <= i < names.len() && 0 <= j < names.len() && i != j implies names[i] != names[j] by {
            if i < j {
                assert(self.entries@[i].0@ != self.entries@[j].0@);
            } else {
                assert(self.entries@[j].0@ != self.entries@[i].0@);
            }
        }
        assert forall|name: Seq<char>| names.to_set().contains(name) == self@.dom().contains(name) by {
            if names.contains(name) {
                let i = choose|i: int| 0 <= i < names.len() && names[i] == name;
                assert(self.is_at(name, i));
            }
            if self@.contains_key(name) {
                let i = choose|i: int| self.is_at(name, i);
                assert(names[i] == name);
            }
        }
        assert(names.to_set() =~= self@.dom());
        names.unique_seq_to_set();
    }

    /// An empty map.
    pub fn new() -> (r: Self)
        ensures
            r.wf(),
            r@ == Map::<Seq<char>, V>::empty(),
    {
        let r = NameMap { entries: Vec::new() };
        assert(r@ =~= Map::<Seq<char>, V>::empty());
        r
    }

    /// The number of names.
    pub fn len(&self) -> (r: usize)
        requires
            self.wf(),
        ensures
            r == self.names().len(),
            r == self@.dom().len(),
    {
        proof {
            self.lemma_names();
        }
        self.entries.len()
    }

    /// The index of the entry for a name.
    fn find(&self, name: &String) -> (r: Option<usize>)
        requires
            self.wf(),
        ensures
            match r {
                Some(i) => self.is_at(name@, i as int),
                None => !self@.contains_key(name@),
            },
    {
        let mut i: usize = 0;
        while i < self.entries.len()
            invariant
                i <= self.entries@.len(),
                forall|j: int| 0 <= j < i ==> !self.is_at(name@, j),
            decreases self.entries@.len() - i,
        {
            if self.entries[i].0 == *name {
                return Some(i);
            }
            i += 1;
        }
        None
    }

    /// The value for a name.
    pub fn get(&self, name: &String) -> (r: Option<&V>)
        requires
            self.wf(),
        ensures
            match r {
                Some(value) => self@.contains_key(name@) && *value == self@[name@],
                None => !self@.contains_key(name@),
            },
    {
        match self.find(name) {
            Some(i) => {
                proof {
                    self.lemma_entry(i as int);
                }
                Some(&self.entries[i].1)
            },
            None => None,
        }
    }

    /// Whether the map has a value for a name.
    pub fn contains_key(&self, name: &String) -> (r: bool)
        requires
            self.wf(),
        ensures
            r == self@.contains_key(name@),
    {
        self.get(name).is_some()
    }

    /// The value for a name, to be changed in place.
    pub fn get_mut(&mut self, name: &String) -> (r: Option<&mut V>)
        requires
            old(self).wf(),
        ensures
            final(self).wf(),
            match r {
                Some(value) => {
                    &&& old(self)@.contains_key(name@)
                    &&& *value == old(self)@[name@]
                    &&& final(self)@ == old(self)@.insert(name@, *final(value))
                },
                None => !old(self)@.contains_key(name@) && *final(self) == *old(self),
            },
    {
        match self.find(name) {
            Some(i) => Some(self.value_at_mut(i)),
            None => None,
        }
    }

    /// The value of the entry at an index, to be changed in place.
    pub fn value_at_mut(&mut self, i: usize) -> (r: &mut V)
        requires
            old(self).wf(),
            i < old(self).names().len(),
        ensures
            final(self).wf(),
            final(self).names() == old(self).names(),
            old(self)@.contains_key(old(self).names()[i as int]),
            *r == old(self)@[old(self).names()[i as int]],
            final(self)@ == old(self)@.insert(old(self).names()[i as int], *final(r)),
    {
        proof {
            self.lemma_entry(i as int);
            let name = self.names()[i as int];
            assert(name == self.entries@[i as int].0@);
            assert forall|other: Self|
                self.differs_at(other, i as int) implies (#[trigger] other@) == self@.insert(
                name,
                other.entries@[i as int].1,
            ) by {
                self.lemma_update(other, i as int);
            }
            assert forall|other: Self|
                self.differs_at(other, i as int) implies #[trigger] other.names() == self.names() && other.wf() by {
                self.lemma_update(other, i as int);
            }
        }
        let entry = &mut self.entries[i];
        &mut entry.1
    }

    /// Sets the value for a name.
    pub fn insert(&mut self, name: String, value: V)
        requires
            old(self).wf(),
        ensures
            final(self).wf(),
            final(self)@ == old(self)@.insert(name@, value),
    {
        match self.get_mut(&name) {
            Some(slot) => {
                *slot = value;
            },
            None => {
                let ghost before = *self;
                self.entries.push((name, value));
                proof {
                    let last = before.entries@.len() as int;
                    assert(self.wf()) by {
                        assert forall|j: int, k: int|
                            #![trigger self.entries@[j], self.entries@[k]]
                            0 <= j < k < self.entries@.len() implies self.entries@[j].0@ != self.entries@[k].0@ by {
                            if k == last {
                                before.lemma_entry(j);
                            } else {
                                assert(before.entries@[j].0@ != before.entries@[k].0@);
                            }
                        }
                    }
                    let updated = before@.insert(name@, value);
                    assert forall|n: Seq<char>| self@.contains_key(n) == updated.contains_key(n) by {
                        if self@.contains_key(n) {
                            let j = choose|j: int| self.is_at(n, j);
                            if j < last {
                                before.lemma_entry(j);
                            }
                        }
                        if before@.contains_key(n) {
                            let j = choose|j: int| before.is_at(n, j);
                            assert(self.is_at(n, j));
                        }
                        self.lemma_entry(last);
                    }
                    assert forall|n: Seq<char>| self@.contains_key(n) implies self@[n] == updated[n] by {
                        let j = choose|j: int| self.is_at(n, j);
                        self.lemma_entry(j);
                        if j < last {
                            before.lemma_entry(j);
                        }
                    }
                    assert(self@ =~= updated);
                }
            },
        }
    }

    /// Takes the value for a name out of the map.
    pub fn remove(&mut self, name: &String) -> (r: Option<V>)
        requires
            old(self).wf(),
        ensures
            final(self).wf(),
            final(self)@ == old(self)@.remove(name@),
            match r {
                Some(value) => old(self)@.contains_key(name@) && value == old(self)@[name@],
                None => !old(self)@.contains_key(name@),
            },
    {
        match self.find(name) {
            Some(i) => {
                let ghost before = *self;
                let entry = self.entries.remove(i);
                proof {
                    let at = i as int;
                    before.lemma_entry(at);
                    assert forall|j: int| 0 <= j < self.entries@.len() implies #[trigger] self.entries@[j]
                        == before.entries@[if j < at { j } else { j + 1 }] by {}
                    assert(self.wf()) by {
                        assert forall|j: int, k: int|
                            #![trigger self.entries@[j], self.entries@[k]]
                            0 <= j < k < self.entries@.len() implies self.entries@[j].0@ != self.entries@[k].0@ by {
                            let bj = if j < at { j } else { j + 1 };
                            let bk = if k < at { k } else { k + 1 };
                            assert(before.entries@[bj].0@ != before.entries@[bk].0@);
                        }
                    }
                    let updated = before@.remove(name@);
                    assert forall|n: Seq<char>| self@.contains_key(n) == updated.contains_key(n) by {
                        if self@.contains_key(n) {
                            let j = choose|j: int| self.is_at(n, j);
                            let bj = if j < at { j } else { j + 1 };
                            before.lemma_entry(bj);
                            if j < at {
                                assert(before.entries@[bj].0@ != before.entries@[at].0@);
                            } else {
                                assert(before.entries@[at].0@ != before.entries@[bj].0@);
                            }
                        }
                        if updated.contains_key(n) {
                            let bj = choose|bj: int| before.is_at(n, bj);
                            let j = if bj < at { bj } else { bj - 1 };
                            assert(self.entries@[j] == before.entries@[bj]);
                            assert(self.is_at(n, j));
                        }
                    }
                    assert forall|n: Seq<char>| self@.contains_key(n) implies self@[n] == updated[n] by {
                        let j = choose|j: int| self.is_at(n, j);
                        self.lemma_entry(j);
                        before.lemma_entry(if j < at { j } else { j + 1 });
                    }
                    assert(self@ =~= updated);
                }
                Some(entry.1)
            },
            None => {
                assert(self@.remove(name@) =~= self@);
                None
            },
        }
    }
}

} // verus!
