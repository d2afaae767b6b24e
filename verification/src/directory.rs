//! A map from names to values whose names can be listed.

use vstd::prelude::*;

verus! {

/// One name and what it stands for.
pub struct Entry<V> {
    pub name: String,
    pub value: V,
}

/// A map from names to values. No name occurs twice.
pub struct Directory<V> {
    entries: Vec<Entry<V>>,
}

/// The place of a name among some entries.
pub open spec fn has_name<V>(entries: Seq<Entry<V>>, name: Seq<char>, i: int) -> bool {
    0 <= i < entries.len() && entries[i].name@ == name
}

/// The map that some entries describe.
pub open spec fn entries_map<V>(entries: Seq<Entry<V>>) -> Map<Seq<char>, V> {
    Map::new(
        |name: Seq<char>| exists|i: int| has_name(entries, name, i),
        |name: Seq<char>| entries[choose|i: int| has_name(entries, name, i)].value,
    )
}

/// Whether no name occurs twice among some entries.
pub open spec fn names_distinct<V>(entries: Seq<Entry<V>>) -> bool {
    forall|i: int, j: int|
        0 <= i < j < entries.len() ==> (#[trigger] entries[i]).name@ != (#[trigger] entries[j]).name@
}

proof fn lemma_entry_at<V>(entries: Seq<Entry<V>>, i: int)
    requires
        names_distinct(entries),
        0 <= i < entries.len(),
    ensures
        entries_map(entries).contains_key(entries[i].name@),
        entries_map(entries)[entries[i].name@] == entries[i].value,
{
    let name = entries[i].name@;
    assert(has_name(entries, name, i));
    let j = choose|j: int| has_name(entries, name, j);
    assert(has_name(entries, name, j));
    if j < i {
        assert(entries[j].name@ != entries[i].name@);
    } else if i < j {
        assert(entries[i].name@ != entries[j].name@);
    }
}

impl<V> View for Directory<V> {
    type V = Map<Seq<char>, V>;

    closed spec fn view(&self) -> Map<Seq<char>, V> {
        entries_map(self.entries@)
    }
}

impl<V> Directory<V> {
    /// No name occurs twice.
    pub closed spec fn wf(&self) -> bool {
        names_distinct(self.entries@)
    }

    /// The names, each once, in some order.
    pub closed spec fn order(&self) -> Seq<Seq<char>> {
        self.entries@.map_values(|e: Entry<V>| e.name@)
    }

    /// The order lists each name of the map once, and no other.
    pub proof fn lemma_order(&self)
        requires
            self.wf(),
        ensures
            self.order().no_duplicates(),
            self.order().to_set() == self@.dom(),
            forall|i: int| 0 <= i < self.order().len() ==> self@.contains_key(#[trigger] self.order()[i]),
    {
        let entries = self.entries@;
        assert forall|i: int| 0 <= i < self.order().len() implies self@.contains_key(
            #[trigger] self.order()[i],
        ) by {
            lemma_entry_at(entries, i);
        }
        assert(self.order().to_set() =~= self@.dom()) by {
            assert forall|name: Seq<char>| self@.contains_key(name) implies self.order().contains(
                name,
            ) by {
                let i = choose|i: int| has_name(entries, name, i);
                assert(has_name(entries, name, i));
                assert(self.order()[i] == name);
            }
        }
    }

    /// An empty directory.
    pub fn new() -> (d: Directory<V>)
        ensures
            d.wf(),
            d@ == Map::<Seq<char>, V>::empty(),
    {
        let d = Directory { entries: Vec::new() };
        assert(d@ =~= Map::<Seq<char>, V>::empty()) by {
            assert forall|name: Seq<char>| !(#[trigger] d@.contains_key(name)) by {
                assert(!exists|i: int| has_name(d.entries@, name, i));
            }
        }
        d
    }

    fn position(&self, name: &str) -> (at: Option<usize>)
        requires
            self.wf(),
        ensures
            match at {
                Some(i) => has_name(self.entries@, name@, i as int) && self@.contains_key(name@)
                    && self@[name@] == self.entries@[i as int].value,
                None => !self@.contains_key(name@) && forall|i: int|
                    0 <= i < self.entries@.len() ==> (#[trigger] self.entries@[i]).name@ != name@,
            },
    {
        let wanted = String::from(name);
        let mut i: usize = 0;
        while i < self.entries.len()
            invariant
                self.wf(),
                wanted@ == name@,
                i <= self.entries@.len(),
                forall|j: int| 0 <= j < i ==> (#[trigger] self.entries@[j]).name@ != name@,
            decreases self.entries@.len() - i,
        {
            if self.entries[i].name == wanted {
                proof {
                    lemma_entry_at(self.entries@, i as int);
                }
                return Some(i);
            }
            i = i + 1;
        }
        None
    }

    /// Whether a name is in the directory.
    pub fn contains(&self, name: &str) -> (b: bool)
        requires
            self.wf(),
        ensures
            b == self@.contains_key(name@),
    {
        self.position(name).is_some()
    }

    /// What a name stands for.
    pub fn get(&self, name: &str) -> (value: Option<&V>)
        requires
            self.wf(),
        ensures
            match value {
                Some(v) => self@.contains_key(name@) && *v == self@[name@],
                None => !self@.contains_key(name@),
            },
    {
        match self.position(name) {
            Some(i) => Some(&self.entries[i].value),
            None => None,
        }
    }

    /// Takes a name out, with what it stood for.
    pub fn remove(&mut self, name: &str) -> (value: Option<V>)
        requires
            old(self).wf(),
        ensures
            final(self).wf(),
            final(self)@ == old(self)@.remove(name@),
            value == (if old(self)@.contains_key(name@) {
                Some(old(self)@[name@])
            } else {
                None
            }),
    {
        let ghost before = self.entries@;
        match self.position(name) {
            Some(i) => {
                let entry = self.entries.remove(i);
                proof {
                    let after = self.entries@;
                    assert(names_distinct(after)) by {
                        assert forall|a: int, b: int| 0 <= a < b < after.len() implies (
                        #[trigger] after[a]).name@ != (#[trigger] after[b]).name@ by {
                            let a0 = if a < i { a } else { a + 1 };
                            let b0 = if b < i { b } else { b + 1 };
                            assert(before[a0].name@ != before[b0].name@);
                        }
                    }
                    assert forall|n: Seq<char>|
                        #[trigger] self@.contains_key(n) == old(self)@.remove(name@).contains_key(
                            n,
                        ) && (self@.contains_key(n) ==> self@[n] == old(self)@[n]) by {
                        if self@.contains_key(n) {
                            let k = choose|k: int| has_name(after, n, k);
                            assert(has_name(after, n, k));
                            let k0 = if k < i { k } else { k + 1 };
                            lemma_entry_at(after, k);
                            lemma_entry_at(before, k0);
                            if k0 < i {
                                assert(before[k0].name@ != before[i as int].name@);
                            } else {
                                assert(before[i as int].name@ != before[k0].name@);
                            }
                        } else if old(self)@.contains_key(n) && n != name@ {
                            let k0 = choose|k: int| has_name(before, n, k);
                            assert(has_name(before, n, k0));
                            let k = if k0 < i { k0 } else { k0 - 1 };
                            assert(after[k] == before[k0]);
                            assert(has_name(after, n, k));
                        }
                    }
                    assert(self@ =~= old(self)@.remove(name@));
                }
                Some(entry.value)
            },
            None => {
                assert(self@ =~= old(self)@.remove(name@));
                None
            },
        }
    }

    /// Lets a name stand for a value, in place of what it stood for before.
    pub fn insert(&mut self, name: &str, value: V)
        requires
            old(self).wf(),
        ensures
            final(self).wf(),
            final(self)@ == old(self)@.insert(name@, value),
    {
        let ghost start = self@;
        self.remove(name);
        let ghost before = self.entries@;
        assert forall|i: int| 0 <= i < before.len() implies (#[trigger] before[i]).name@ != name@ by {
            lemma_entry_at(before, i);
        }
        self.entries.push(Entry { name: String::from(name), value });
        proof {
            let after = self.entries@;
            let last = before.len() as int;
            assert(names_distinct(after)) by {
                assert forall|a: int, b: int| 0 <= a < b < after.len() implies (
                #[trigger] after[a]).name@ != (#[trigger] after[b]).name@ by {
                    assert(after[a] == before[a]);
                    if b < last {
                        assert(after[b] == before[b]);
                    }
                }
            }
            assert forall|n: Seq<char>|
                #[trigger] self@.contains_key(n) == start.insert(name@, value).contains_key(n) && (
                self@.contains_key(n) ==> self@[n] == start.insert(name@, value)[n]) by {
                if self@.contains_key(n) {
                    let k = choose|k: int| has_name(after, n, k);
                    assert(has_name(after, n, k));
                    lemma_entry_at(after, k);
                    if k < last {
                        lemma_entry_at(before, k);
                    }
                } else if n == name@ {
                    assert(has_name(after, n, last));
                } else if start.contains_key(n) {
                    assert(entries_map(before).contains_key(n));
                    let k = choose|k: int| has_name(before, n, k);
                    assert(has_name(before, n, k));
                    assert(has_name(after, n, k));
                }
            }
            assert(self@ =~= start.insert(name@, value));
        }
    }

    /// The number of names.
    pub fn len(&self) -> (n: usize)
        ensures
            n == self.order().len(),
    {
        self.entries.len()
    }

    /// Whether there is no name at all.
    pub fn is_empty(&self) -> (b: bool)
        requires
            self.wf(),
        ensures
            b == (self@ == Map::<Seq<char>, V>::empty()),
    {
        let b = self.entries.len() == 0;
        proof {
            if b {
                assert forall|name: Seq<char>| !(#[trigger] self@.contains_key(name)) by {
                    assert(!exists|i: int| has_name(self.entries@, name, i));
                }
                assert(self@ =~= Map::<Seq<char>, V>::empty());
            } else {
                lemma_entry_at(self.entries@, 0);
            }
        }
        b
    }

    /// The name and the value at a place of the order.
    pub fn entry(&self, i: usize) -> (e: (&String, &V))
        requires
            self.wf(),
            i < self.order().len(),
        ensures
            e.0@ == self.order()[i as int],
            self@.contains_key(e.0@),
            *e.1 == self@[e.0@],
    {
        proof {
            lemma_entry_at(self.entries@, i as int);
        }
        (&self.entries[i].name, &self.entries[i].value)
    }

    /// The names, each once.
    pub fn names(&self) -> (names: Vec<String>)
        requires
            self.wf(),
        ensures
            names@.map_values(|s: String| s@) == self.order(),
    {
        let mut names: Vec<String> = Vec::new();
        let mut i: usize = 0;
        while i < self.entries.len()
            invariant
                i <= self.entries@.len(),
                names@.len() == i,
                forall|j: int| 0 <= j < i ==> (#[trigger] names@[j])@ == self.entries@[j].name@,
            decreases self.entries@.len() - i,
        {
            names.push(self.entries[i].name.clone());
            i = i + 1;
        }
        assert(names@.map_values(|s: String| s@) =~= self.order());
        names
    }
}

} // verus!
