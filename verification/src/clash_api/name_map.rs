//! A mapping from names to values that keeps the order in which the names
//! first arrived.

use crate::text::str_eq;
use vstd::prelude::*;

verus! {

/// Names with their values, in the order in which the names first arrived.
#[derive(Debug, PartialEq, Eq)]
pub struct NameMap<V> {
    entries: Vec<(String, V)>,
}

impl<V> NameMap<V> {
    /// The names, in the order in which they first arrived.
    pub closed spec fn keys(&self) -> Seq<Seq<char>> {
        Seq::new(self.entries@.len(), |i: int| self.entries@[i].0@)
    }

    /// The values, each at the index of its name.
    pub closed spec fn values(&self) -> Seq<V> {
        Seq::new(self.entries@.len(), |i: int| self.entries@[i].1)
    }

    /// No name occurs twice.
    pub open spec fn wf(&self) -> bool {
        &&& self.keys().no_duplicates()
        &&& self.values().len() == self.keys().len()
    }

    /// Whether `name` has a value.
    pub open spec fn contains(&self, name: Seq<char>) -> bool {
        self.keys().contains(name)
    }

    /// The value of `name`, which must have one.
    pub open spec fn value_of(&self, name: Seq<char>) -> V {
        self.values()[self.keys().index_of(name)]
    }

    /// The mapping without its order.
    pub open spec fn view(&self) -> Map<Seq<char>, V> {
        Map::new(|name: Seq<char>| self.contains(name), |name: Seq<char>| self.value_of(name))
    }

    /// The empty mapping.
    pub fn new() -> (map: Self)
        ensures
            map.wf(),
            map.keys().len() == 0,
            map@ == Map::<Seq<char>, V>::empty(),
    {
        let map = NameMap { entries: Vec::new() };
        map
    }

    /// How many names have a value.
    pub fn len(&self) -> (n: usize)
        ensures
            n == self.keys().len(),
    {
        self.entries.len()
    }

    /// Index of `name` among the entries.
    fn position(&self, name: &str) -> (at: Option<usize>)
        requires
            self.wf(),
        ensures
            match at {
                Some(i) => i < self.keys().len() && self.keys()[i as int] == name@
                    && self.keys().index_of(name@) == i,
                None => !self.contains(name@),
            },
    {
        let mut i: usize = 0;
        while i < self.entries.len()
            invariant
                i <= self.entries.len(),
                self.wf(),
                forall|k: int| 0 <= k < i ==> self.keys()[k] != name@,
            decreases self.entries.len() - i,
        {
            if str_eq(self.entries[i].0.as_str(), name) {
                proof {
                    assert(self.keys()[i as int] == name@);
                }
                return Some(i);
            }
            i += 1;
        }
        None
    }

    /// The value of `name`, if it has one.
    pub fn get(&self, name: &str) -> (value: Option<&V>)
        requires
            self.wf(),
        ensures
            match value {
                Some(v) => self.contains(name@) && *v == self.value_of(name@),
                None => !self.contains(name@),
            },
    {
        match self.position(name) {
            Some(i) => Some(&self.entries[i].1),
            None => None,
        }
    }

    /// The name at index `i` in arrival order.
    pub fn key_at(&self, i: usize) -> (name: &str)
        requires
            i < self.keys().len(),
        ensures
            name@ == self.keys()[i as int],
    {
        self.entries[i].0.as_str()
    }

    /// The value at index `i` in arrival order.
    pub fn value_at(&self, i: usize) -> (value: &V)
        requires
            i < self.keys().len(),
        ensures
            *value == self.values()[i as int],
    {
        &self.entries[i].1
    }

    /// Gives `name` the value `value`. A name that has a value keeps its
    /// place in the order; a new name comes last.
    pub fn insert(&mut self, name: String, value: V)
        requires
            old(self).wf(),
        ensures
            final(self).wf(),
            final(self)@ == old(self)@.insert(name@, value),
            old(self).contains(name@) ==> final(self).keys() == old(self).keys(),
            old(self).contains(name@) ==> final(self).values() == old(self).values().update(
                old(self).keys().index_of(name@),
                value,
            ),
            !old(self).contains(name@) ==> final(self).keys() == old(self).keys().push(name@),
            !old(self).contains(name@) ==> final(self).values() == old(self).values().push(value),
    {
        let ghost before = *self;
        match self.position(name.as_str()) {
            Some(i) => {
                self.entries.set(i, (name, value));
                proof {
                    assert(self.keys() =~= before.keys());
                    assert(self.values() =~= before.values().update(i as int, value));
                    assert forall|k: Seq<char>| self.contains(k) implies #[trigger] self.value_of(k)
                        == before@.insert(name@, value)[k] by {
                        let at = self.keys().index_of(k);
                        assert(self.keys()[at] == k);
                        if k == name@ {
                            assert(at == i);
                        }
                    }
                    assert(self@ =~= before@.insert(name@, value));
                }
            },
            None => {
                self.entries.push((name, value));
                proof {
                    assert(self.keys() =~= before.keys().push(name@));
                    assert(self.values() =~= before.values().push(value));
                    assert(self.keys().no_duplicates()) by {
                        assert forall|a: int, b: int|
                            0 <= a < self.keys().len() && 0 <= b < self.keys().len() && a
                                != b implies self.keys()[a] != self.keys()[b] by {
                            if a < before.keys().len() && b < before.keys().len() {
                                assert(before.keys()[a] != before.keys()[b]);
                            } else if a < before.keys().len() {
                                assert(before.keys().contains(before.keys()[a]));
                            } else {
                                assert(before.keys().contains(before.keys()[b]));
                            }
                        }
                    }
                    assert forall|k: Seq<char>|
                        self.contains(k) <==> before@.insert(name@, value).contains_key(k) by {
                        if self.contains(k) {
                            let at = self.keys().index_of(k);
                            assert(self.keys()[at] == k);
                            if at < before.keys().len() {
                                assert(before.keys()[at] == k);
                            }
                        }
                        if before.contains(k) {
                            let at = before.keys().index_of(k);
                            assert(before.keys()[at] == k);
                            assert(self.keys()[at] == k);
                        }
                        if k == name@ {
                            assert(self.keys()[before.keys().len() as int] == k);
                        }
                    }
                    assert forall|k: Seq<char>| self.contains(k) implies #[trigger] self.value_of(k)
                        == before@.insert(name@, value)[k] by {
                        let at = self.keys().index_of(k);
                        assert(self.keys()[at] == k);
                        if k != name@ {
                            assert(at < before.keys().len());
                            assert(before.keys()[at] == k);
                            assert(before.contains(k));
                            assert(before.keys().index_of(k) == at);
                        } else {
                            assert(self.keys()[before.keys().len() as int] == k);
                            assert(at == before.keys().len());
                        }
                    }
                    assert(self@ =~= before@.insert(name@, value));
                }
            },
        }
    }
}

} // verus!
