//! A map from names to values.
use crate::text::same_text;
use vstd::prelude::*;
use vstd::string::*;

verus! {

/// A finite map keyed by strings. No name is held twice.
#[derive(Debug)]
pub struct Table<V> {
    entries: Vec<(String, V)>,
}

impl<V: View> View for Table<V> {
    type V = Map<Seq<char>, V::V>;

    closed spec fn view(&self) -> Map<Seq<char>, V::V> {
        Map::new(
            |name: Seq<char>| exists|i: int| self.holds(i, name),
            |name: Seq<char>| self.entries@[choose|i: int| self.holds(i, name)].1@,
        )
    }
}

impl<V> Table<V> {
    /// The entry at `i` is the one named `name`.
    pub closed spec fn holds(&self, i: int, name: Seq<char>) -> bool {
        0 <= i < self.entries@.len() && self.entries@[i].0@ == name
    }

    #[verifier::type_invariant]
    spec fn names_differ(&self) -> bool {
        forall|i: int, j: int|
            0 <= i < j < self.entries@.len() ==> (#[trigger] self.entries@[i]).0@
                != (#[trigger] self.entries@[j]).0@
    }
}

impl<V: View> Table<V> {
    /// A table without entries.
    pub fn new() -> (table: Self)
        ensures
            table@ == Map::<Seq<char>, V::V>::empty(),
    {
        let table = Table { entries: Vec::new() };
        assert(table@ =~= Map::<Seq<char>, V::V>::empty());
        table
    }

    /// Where the entry named `name` stands, if there is one.
    fn position(&self, name: &str) -> (at: Option<usize>)
        ensures
            match at {
                Some(i) => self.holds(i as int, name@),
                None => forall|i: int| !self.holds(i, name@),
            },
    {
        let mut i: usize = 0;
        while i < self.entries.len()
            invariant
                i <= self.entries.len(),
                forall|j: int| 0 <= j < i ==> !self.holds(j, name@),
            decreases self.entries.len() - i,
        {
            if same_text(self.entries[i].0.as_str(), name) {
                return Some(i);
            }
            i += 1;
        }
        None
    }

    /// Whether the table has an entry named `name`.
    pub fn contains_key(&self, name: &str) -> (found: bool)
        ensures
            found == self@.contains_key(name@),
    {
        self.position(name).is_some()
    }

    /// The value of the entry named `name`.
    pub fn get(&self, name: &str) -> (found: Option<&V>)
        ensures
            match found {
                Some(value) => self@.contains_key(name@) && value@ == self@[name@],
                None => !self@.contains_key(name@),
            },
    {
        proof {
            use_type_invariant(self);
        }
        match self.position(name) {
            Some(i) => {
                assert(self.holds(choose|j: int| self.holds(j, name@), name@));
                Some(&self.entries[i].1)
            },
            None => None,
        }
    }

    /// Sets the value of the entry named `name`, adding the entry where the
    /// table has none of that name.
    pub fn insert(&mut self, name: String, value: V)
        ensures
            final(self)@ == old(self)@.insert(name@, value@),
    {
        proof {
            use_type_invariant(&*self);
        }
        let ghost before = *self;
        let at = self.position(name.as_str());
        let mut entries: Vec<(String, V)> = Vec::new();
        core::mem::swap(&mut self.entries, &mut entries);
        let ghost slot: int = match at {
            Some(i) => i as int,
            None => entries@.len() as int,
        };
        match at {
            Some(i) => {
                assert(before.holds(i as int, name@));
                entries.set(i, (name, value));
            },
            None => {
                assert(forall|j: int| 0 <= j < entries@.len() ==> !before.holds(j, name@));
                entries.push((name, value));
            },
        }
        assert forall|i: int, j: int| 0 <= i < j < entries@.len() implies (#[trigger] entries@[i]).0@
            != (#[trigger] entries@[j]).0@ by {
            if i != slot && j != slot {
                assert(before.entries@[i].0@ != before.entries@[j].0@);
            } else if i == slot {
                assert(!before.holds(j, name@) || j == slot);
            } else {
                assert(!before.holds(i, name@) || i == slot);
            }
        }
        core::mem::swap(&mut self.entries, &mut entries);
        proof {
            assert(self.holds(slot, name@));
            let after = *self;
            assert forall|key: Seq<char>|
                after@.contains_key(key) <==> before@.insert(name@, value@).contains_key(
                    key,
                ) by {
                if after@.contains_key(key) {
                    let i = choose|i: int| after.holds(i, key);
                    if key != name@ {
                        assert(before.holds(i, key));
                    }
                }
                if before@.insert(name@, value@).contains_key(key) {
                    if key != name@ {
                        let i = choose|i: int| before.holds(i, key);
                        assert(after.holds(i, key));
                    } else {
                        assert(exists|i: int| after.holds(i, key));
                    }
                }
            }
            assert forall|key: Seq<char>| after@.contains_key(key) implies after@[key]
                == before@.insert(name@, value@)[key] by {
                let i = choose|i: int| after.holds(i, key);
                if key != name@ {
                    assert(before.holds(i, key));
                    let j = choose|j: int| before.holds(j, key);
                    assert(i == j);
                }
            }
            assert(after@ =~= before@.insert(name@, value@));
        }
    }

    /// Takes the entry named `name` out of the table and returns its value.
    pub fn remove(&mut self, name: &str) -> (taken: Option<V>)
        ensures
            final(self)@ == old(self)@.remove(name@),
            match taken {
                Some(value) => old(self)@.contains_key(name@) && value@ == old(self)@[name@],
                None => !old(self)@.contains_key(name@),
            },
    {
        proof {
            use_type_invariant(&*self);
        }
        let ghost before = *self;
        let at = match self.position(name) {
            Some(i) => i,
            None => {
                assert(self@ =~= before@.remove(name@));
                return None;
            },
        };
        assert(before.holds(choose|j: int| before.holds(j, name@), name@));
        let mut entries: Vec<(String, V)> = Vec::new();
        core::mem::swap(&mut self.entries, &mut entries);
        let (_, value) = entries.remove(at);
        assert forall|i: int, j: int| 0 <= i < j < entries@.len() implies (#[trigger] entries@[i]).0@
            != (#[trigger] entries@[j]).0@ by {
            let from_i = if i < at { i } else { i + 1 };
            let from_j = if j < at { j } else { j + 1 };
            assert(before.entries@[from_i].0@ != before.entries@[from_j].0@);
        }
        core::mem::swap(&mut self.entries, &mut entries);
        proof {
            let after = *self;
            assert forall|key: Seq<char>|
                after@.contains_key(key) <==> before@.remove(name@).contains_key(key) by {
                if after@.contains_key(key) {
                    let i = choose|i: int| after.holds(i, key);
                    let from = if i < at { i } else { i + 1 };
                    assert(before.holds(from, key));
                    assert(before.entries@[from].0@ != before.entries@[at as int].0@);
                }
                if before@.remove(name@).contains_key(key) {
                    let i = choose|i: int| before.holds(i, key);
                    let to = if i < at { i } else { i - 1 };
                    assert(after.holds(to, key));
                }
            }
            assert forall|key: Seq<char>| after@.contains_key(key) implies after@[key]
                == before@.remove(name@)[key] by {
                let i = choose|i: int| after.holds(i, key);
                let from = if i < at { i } else { i + 1 };
                assert(before.holds(from, key));
                let j = choose|j: int| before.holds(j, key);
                assert(from == j);
            }
            assert(after@ =~= before@.remove(name@));
        }
        Some(value)
    }

    /// The number of entries.
    pub fn len(&self) -> (n: usize)
        ensures
            n == self@.len(),
            self@.dom().finite(),
    {
        proof {
            use_type_invariant(self);
            self.lemma_count(self.entries@.len() as int);
            assert(self.names_below(self.entries@.len() as int) =~= self@.dom());
        }
        self.entries.len()
    }

    /// The names of the first `n` entries.
    spec fn names_below(&self, n: int) -> Set<Seq<char>> {
        Set::new(|name: Seq<char>| exists|i: int| 0 <= i < n && self.holds(i, name))
    }

    /// The first `n` entries have `n` names.
    proof fn lemma_count(&self, n: int)
        requires
            self.names_differ(),
            0 <= n <= self.entries@.len(),
        ensures
            self.names_below(n).finite(),
            self.names_below(n).len() == n,
        decreases n,
    {
        if n == 0 {
            assert(self.names_below(0) =~= Set::empty());
        } else {
            self.lemma_count(n - 1);
            let name = self.entries@[n - 1].0@;
            assert(self.holds(n - 1, name));
            assert forall|other: Seq<char>|
                self.names_below(n).contains(other) <==> self.names_below(n - 1).insert(
                    name,
                ).contains(other) by {
                if self.names_below(n).contains(other) {
                    let i = choose|i: int| 0 <= i < n && self.holds(i, other);
                    if i < n - 1 {
                        assert(self.names_below(n - 1).contains(other));
                    }
                }
            }
            assert(self.names_below(n) =~= self.names_below(n - 1).insert(name));
            assert(!self.names_below(n - 1).contains(name)) by {
                if self.names_below(n - 1).contains(name) {
                    let i = choose|i: int| 0 <= i < n - 1 && self.holds(i, name);
                    assert(self.entries@[i].0@ != self.entries@[n - 1].0@);
                }
            }
        }
    }
}

} // verus!
