//! A table of values keyed by 128-bit ids, kept in insertion order.
use vstd::prelude::*;

verus! {

/// A map from ids to values, held as a vector of pairs with distinct keys.
pub struct Table<V> {
    pub entries: Vec<(u128, V)>,
}

impl<V> View for Table<V> {
    type V = Map<u128, V>;

    open spec fn view(&self) -> Map<u128, V> {
        Map::new(|k: u128| self.has(k), |k: u128| self.entries@[self.index_of(k)].1)
    }
}

impl<V> Table<V> {
    /// No key occurs twice.
    pub open spec fn wf(&self) -> bool {
        forall|i: int, j: int|
            0 <= i < self.entries@.len() && 0 <= j < self.entries@.len() && i != j
                ==> #[trigger] self.entries@[i].0 != #[trigger] self.entries@[j].0
    }

    pub open spec fn has(&self, k: u128) -> bool {
        exists|i: int| 0 <= i < self.entries@.len() && #[trigger] self.entries@[i].0 == k
    }

    pub open spec fn index_of(&self, k: u128) -> int {
        choose|i: int| 0 <= i < self.entries@.len() && #[trigger] self.entries@[i].0 == k
    }

    /// The entry at an index is what the map holds for its key.
    pub proof fn lemma_entry(&self, i: int)
        requires
            self.wf(),
            0 <= i < self.entries@.len(),
        ensures
            self@.contains_key(self.entries@[i].0),
            self@[self.entries@[i].0] == self.entries@[i].1,
            self.index_of(self.entries@[i].0) == i,
    {
        let k = self.entries@[i].0;
        assert(self.has(k));
        let j = self.index_of(k);
        assert(self.entries@[j].0 == k);
    }

    /// A table whose entries are exactly the pairs of a map has that map as view.
    pub proof fn lemma_view_is(&self, m: Map<u128, V>)
        requires
            self.wf(),
            forall|i: int|
                0 <= i < self.entries@.len() ==> m.contains_key(#[trigger] self.entries@[i].0)
                    && m[self.entries@[i].0] == self.entries@[i].1,
            forall|k: u128| #[trigger] m.contains_key(k) ==> self.has(k),
        ensures
            self@ == m,
    {
        assert forall|k: u128| #[trigger] self@.contains_key(k) == m.contains_key(k) by {
            if self.has(k) {
                let i = self.index_of(k);
                self.lemma_entry(i);
            }
        }
        assert forall|k: u128| #[trigger] self@.contains_key(k) implies self@[k] == m[k] by {
            let i = self.index_of(k);
            self.lemma_entry(i);
        }
        assert(self@ =~= m);
    }

    /// An empty table.
    pub fn new() -> (r: Table<V>)
        ensures
            r.wf(),
            r@ == Map::<u128, V>::empty(),
    {
        let r = Table { entries: Vec::new() };
        assert(r@ =~= Map::<u128, V>::empty());
        r
    }

    /// Number of keys.
    pub fn len(&self) -> (r: usize)
        requires
            self.wf(),
        ensures
            r == self@.len(),
            r == self.entries@.len(),
    {
        proof {
            self.lemma_len();
        }
        self.entries.len()
    }

    pub proof fn lemma_len(&self)
        requires
            self.wf(),
        ensures
            self@.len() == self.entries@.len(),
            self@.dom().finite(),
    {
        let keys = self.entries@.map_values(|e: (u128, V)| e.0);
        assert forall|k: u128| #[trigger] self@.dom().contains(k) == keys.to_set().contains(k) by {
            if self.has(k) {
                let i = self.index_of(k);
                assert(keys[i] == k);
            }
            if keys.to_set().contains(k) {
                let i = keys.index_of(k);
                assert(self.entries@[i].0 == k);
            }
        }
        assert(self@.dom() =~= keys.to_set());
        assert(keys.no_duplicates()) by {
            assert forall|i: int, j: int|
                0 <= i < keys.len() && 0 <= j < keys.len() && i != j implies keys[i] != keys[j] by {
                assert(self.entries@[i].0 != self.entries@[j].0);
            }
        }
        keys.unique_seq_to_set();
    }

    /// Index of a key, if present.
    pub fn find(&self, k: u128) -> (r: Option<usize>)
        requires
            self.wf(),
        ensures
            r is None <==> !self@.contains_key(k),
            r is Some ==> r->Some_0 < self.entries@.len() && self.entries@[r->Some_0 as int].0 == k,
    {
        let mut i: usize = 0;
        while i < self.entries.len()
            invariant
                self.wf(),
                i <= self.entries@.len(),
                forall|j: int| 0 <= j < i ==> #[trigger] self.entries@[j].0 != k,
            decreases self.entries@.len() - i,
        {
            if self.entries[i].0 == k {
                proof {
                    self.lemma_entry(i as int);
                }
                return Some(i);
            }
            i = i + 1;
        }
        proof {
            if self.has(k) {
                let j = self.index_of(k);
                assert(self.entries@[j].0 == k);
            }
        }
        None
    }

    /// Whether the key is present.
    pub fn contains(&self, k: u128) -> (r: bool)
        requires
            self.wf(),
        ensures
            r == self@.contains_key(k),
    {
        self.find(k).is_some()
    }

    /// The value of a key, if present.
    pub fn get(&self, k: u128) -> (r: Option<&V>)
        requires
            self.wf(),
        ensures
            r is Some <==> self@.contains_key(k),
            r is Some ==> *r->Some_0 == self@[k],
    {
        match self.find(k) {
            Some(i) => {
                proof {
                    self.lemma_entry(i as int);
                }
                Some(&self.entries[i].1)
            },
            None => None,
        }
    }

    /// Sets the value of a key, adding the key where it is absent.
    pub fn insert(&mut self, k: u128, v: V)
        requires
            old(self).wf(),
        ensures
            final(self).wf(),
            final(self)@ == old(self)@.insert(k, v),
    {
        let ghost pre = *self;
        let ghost m = pre@.insert(k, v);
        match self.find(k) {
            Some(i) => {
                self.entries.set(i, (k, v));
                proof {
                    assert forall|a: int| 0 <= a < self.entries@.len() implies m.contains_key(
                        #[trigger] self.entries@[a].0,
                    ) && m[self.entries@[a].0] == self.entries@[a].1 by {
                        if a != i {
                            pre.lemma_entry(a);
                        }
                    }
                    assert forall|q: u128| #[trigger] m.contains_key(q) implies self.has(q) by {
                        if q == k {
                            assert(self.entries@[i as int].0 == q);
                        } else {
                            let j = pre.index_of(q);
                            assert(self.entries@[j].0 == q);
                        }
                    }
                    self.lemma_view_is(m);
                }
            },
            None => {
                self.entries.push((k, v));
                proof {
                    let n = pre.entries@.len() as int;
                    assert forall|a: int| 0 <= a < self.entries@.len() implies m.contains_key(
                        #[trigger] self.entries@[a].0,
                    ) && m[self.entries@[a].0] == self.entries@[a].1 by {
                        if a != n {
                            pre.lemma_entry(a);
                        }
                    }
                    assert forall|q: u128| #[trigger] m.contains_key(q) implies self.has(q) by {
                        if q == k {
                            assert(self.entries@[n].0 == q);
                        } else {
                            let j = pre.index_of(q);
                            assert(self.entries@[j].0 == q);
                        }
                    }
                    self.lemma_view_is(m);
                }
            },
        }
    }

    /// Takes a key out, handing back its value.
    pub fn remove(&mut self, k: u128) -> (r: Option<V>)
        requires
            old(self).wf(),
        ensures
            final(self).wf(),
            final(self)@ == old(self)@.remove(k),
            r is Some <==> old(self)@.contains_key(k),
            r is Some ==> r->Some_0 == old(self)@[k],
    {
        let ghost pre = *self;
        let ghost m = pre@.remove(k);
        match self.find(k) {
            Some(i) => {
                proof {
                    pre.lemma_entry(i as int);
                }
                let e = self.entries.remove(i);
                proof {
                    assert forall|a: int| 0 <= a < self.entries@.len() implies m.contains_key(
                        #[trigger] self.entries@[a].0,
                    ) && m[self.entries@[a].0] == self.entries@[a].1 by {
                        let b = if a < i { a } else { a + 1 };
                        assert(self.entries@[a] == pre.entries@[b]);
                        pre.lemma_entry(b);
                    }
                    assert forall|q: u128| #[trigger] m.contains_key(q) implies self.has(q) by {
                        let j = pre.index_of(q);
                        assert(pre.entries@[j].0 == q);
                        if j < i {
                            assert(self.entries@[j].0 == q);
                        } else {
                            assert(self.entries@[j - 1].0 == q);
                        }
                    }
                    self.lemma_view_is(m);
                }
                Some(e.1)
            },
            None => {
                proof {
                    assert(pre@ =~= m);
                }
                None
            },
        }
    }
}

} // verus!
