use vstd::prelude::*;
use crate::identity::Identity;

verus! {

/// A table keyed by identity, holding at most one entry per key.
pub struct IdTable<V> {
    entries: Vec<(Identity, V)>,
}

impl<V: Copy> IdTable<V> {
    /// Keys are pairwise distinct.
    pub closed spec fn wf(&self) -> bool {
        forall|i: int, j: int|
            0 <= i < self.entries@.len() && 0 <= j < self.entries@.len() && i != j
                ==> (#[trigger] self.entries@[i]).0 != (#[trigger] self.entries@[j]).0
    }

    pub closed spec fn has_key(&self, k: Identity) -> bool {
        exists|i: int| 0 <= i < self.entries@.len() && (#[trigger] self.entries@[i]).0 == k
    }

    closed spec fn as_map(&self) -> Map<Identity, V> {
        Map::new(
            |k: Identity| self.has_key(k),
            |k: Identity|
                self.entries@[choose|i: int|
                    0 <= i < self.entries@.len() && (#[trigger] self.entries@[i]).0 == k].1,
        )
    }

    pub fn new() -> (r: IdTable<V>)
        ensures
            r.wf(),
            r@ == Map::<Identity, V>::empty(),
    {
        let r = IdTable { entries: Vec::new() };
        assert(r@ =~= Map::<Identity, V>::empty());
        r
    }

    fn index_of(&self, k: &Identity) -> (r: Option<usize>)
        requires
            self.wf(),
        ensures
            r matches Some(i) ==> i < self.entries@.len() && self.entries@[i as int].0 == *k,
            r is None ==> !self.has_key(*k),
    {
        let mut i: usize = 0;
        while i < self.entries.len()
            invariant
                i <= self.entries@.len(),
                forall|j: int| 0 <= j < i ==> (#[trigger] self.entries@[j]).0 != *k,
            decreases self.entries@.len() - i,
        {
            if self.entries[i].0 == *k {
                return Some(i);
            }
            i = i + 1;
        }
        None
    }

    /// The value stored under `k`, if any.
    pub fn get(&self, k: &Identity) -> (r: Option<V>)
        requires
            self.wf(),
        ensures
            r == (if self@.contains_key(*k) { Some(self@[*k]) } else { None::<V> }),
    {
        match self.index_of(k) {
            Some(i) => {
                let ghost c = choose|j: int|
                    0 <= j < self.entries@.len() && (#[trigger] self.entries@[j]).0 == *k;
                assert(self.has_key(*k));
                assert(c == i);
                Some(self.entries[i].1)
            },
            None => None,
        }
    }

    /// Stores `v` under `k`, replacing what was there.
    pub fn set(&mut self, k: Identity, v: V)
        requires
            old(self).wf(),
        ensures
            final(self).wf(),
            final(self)@ == old(self)@.insert(k, v),
    {
        let ghost before = *self;
        match self.index_of(&k) {
            Some(i) => {
                self.entries.set(i, (k, v));
                assert forall|j: int| 0 <= j < self.entries@.len() implies
                    (#[trigger] self.entries@[j]).0 == before.entries@[j].0 by {}
                assert(self.wf());
                assert forall|x: Identity| #[trigger] self@.contains_key(x) implies
                    old(self)@.insert(k, v).contains_key(x) && self@[x] == old(self)@.insert(k, v)[x] by {
                    let j = choose|j: int|
                        0 <= j < self.entries@.len() && (#[trigger] self.entries@[j]).0 == x;
                    if x == k {
                        assert(j == i);
                    } else {
                        assert(before.entries@[j].0 == x);
                        assert(before.has_key(x));
                        let j0 = choose|j: int|
                            0 <= j < before.entries@.len() && (#[trigger] before.entries@[j]).0 == x;
                        assert(j0 == j);
                    }
                }
                assert forall|x: Identity| #[trigger] old(self)@.insert(k, v).contains_key(x) implies
                    self@.contains_key(x) by {
                    if x == k {
                        assert(self.entries@[i as int].0 == x);
                    } else {
                        let j0 = choose|j: int|
                            0 <= j < before.entries@.len() && (#[trigger] before.entries@[j]).0 == x;
                        assert(self.entries@[j0].0 == x);
                    }
                }
            },
            None => {
                self.entries.push((k, v));
                let ghost n = before.entries@.len() as int;
                assert(self.entries@[n].0 == k);
                assert forall|j: int| 0 <= j < n implies
                    (#[trigger] self.entries@[j]) == before.entries@[j] by {}
                assert(self.wf());
                assert forall|x: Identity| #[trigger] self@.contains_key(x) implies
                    old(self)@.insert(k, v).contains_key(x) && self@[x] == old(self)@.insert(k, v)[x] by {
                    let j = choose|j: int|
                        0 <= j < self.entries@.len() && (#[trigger] self.entries@[j]).0 == x;
                    if x == k {
                        assert(j == n);
                    } else {
                        assert(before.entries@[j].0 == x);
                        assert(before.has_key(x));
                        let j0 = choose|j: int|
                            0 <= j < before.entries@.len() && (#[trigger] before.entries@[j]).0 == x;
                        assert(self.entries@[j0].0 == x);
                        assert(j0 == j);
                    }
                }
                assert forall|x: Identity| #[trigger] old(self)@.insert(k, v).contains_key(x) implies
                    self@.contains_key(x) by {
                    if x != k {
                        let j0 = choose|j: int|
                            0 <= j < before.entries@.len() && (#[trigger] before.entries@[j]).0 == x;
                        assert(self.entries@[j0].0 == x);
                    }
                }
            },
        }
        assert(self@ =~= old(self)@.insert(k, v));
    }
}

impl<V: Copy> View for IdTable<V> {
    type V = Map<Identity, V>;

    closed spec fn view(&self) -> Map<Identity, V> {
        self.as_map()
    }
}

} // verus!
