//! A small map from keys to values, kept as a list in which no key occurs twice.

use vstd::prelude::*;
use crate::primitives::{Address, SlotKey, B256, U256};

verus! {

/// A key that can be told apart from another at run time.
pub trait TableKey: Copy + Sized {
    /// Whether the two keys are the same.
    fn same(&self, other: &Self) -> (r: bool)
        ensures
            r == (*self == *other),
    ;
}

impl TableKey for Address {
    fn same(&self, other: &Self) -> (r: bool) {
        self.hi == other.hi && self.lo == other.lo
    }
}

impl TableKey for U256 {
    fn same(&self, other: &Self) -> (r: bool) {
        self.hi == other.hi && self.lo == other.lo
    }
}

impl TableKey for B256 {
    fn same(&self, other: &Self) -> (r: bool) {
        self.hi == other.hi && self.lo == other.lo
    }
}

impl TableKey for SlotKey {
    fn same(&self, other: &Self) -> (r: bool) {
        self.address.same(&other.address) && self.index.same(&other.index)
    }
}

/// A value that can be copied with its view kept.
pub trait TableValue: View + Sized {
    /// A copy with the same view.
    fn duplicate(&self) -> (r: Self)
        ensures
            r@ == self@,
    ;
}

impl View for U256 {
    type V = U256;

    open spec fn view(&self) -> U256 {
        *self
    }
}

impl TableValue for U256 {
    fn duplicate(&self) -> (r: Self) {
        *self
    }
}

impl View for B256 {
    type V = B256;

    open spec fn view(&self) -> B256 {
        *self
    }
}

impl TableValue for B256 {
    fn duplicate(&self) -> (r: Self) {
        *self
    }
}

/// A finite map from `K` to `V`. Its view is the map from each key to the view of
/// its value.
#[derive(Debug)]
pub struct Table<K: TableKey, V: TableValue> {
    entries: Vec<(K, V)>,
}

impl<K: TableKey, V: TableValue> View for Table<K, V> {
    type V = Map<K, V::V>;

    closed spec fn view(&self) -> Map<K, V::V> {
        Map::new(|k: K| self.has(k), |k: K| self.entries@[self.index_of(k)].1@)
    }
}

impl<K: TableKey, V: TableValue> Clone for Table<K, V> {
    fn clone(&self) -> (r: Self)
        ensures
            r@ == self@,
    {
        proof {
            use_type_invariant(self);
        }
        let mut entries: Vec<(K, V)> = Vec::new();
        let mut i: usize = 0;
        while i < self.entries.len()
            invariant
                i <= self.entries@.len(),
                entries@.len() == i,
                forall|j: int|
                    0 <= j < i ==> entries@[j].0 == self.entries@[j].0 && entries@[j].1@
                        == self.entries@[j].1@,
            decreases self.entries@.len() - i,
        {
            let copy = self.entries[i].1.duplicate();
            entries.push((self.entries[i].0, copy));
            i += 1;
        }
        let r = Table { entries };
        proof {
            assert forall|k: K| #[trigger] r.has(k) == self.has(k) by {
                if r.has(k) {
                    assert(self.entries@[r.index_of(k)].0 == k);
                }
                if self.has(k) {
                    assert(r.entries@[self.index_of(k)].0 == k);
                }
            }
            assert forall|k: K| r.has(k) implies r.index_of(k) == self.index_of(k) by {
                assert(self.entries@[r.index_of(k)].0 == k);
            }
            assert(r@ =~= self@);
        }
        r
    }
}

impl<K: TableKey, V: TableValue> Table<K, V> {
    #[verifier::type_invariant]
    closed spec fn distinct_keys(&self) -> bool {
        forall|i: int, j: int|
            0 <= i < j < self.entries@.len() ==> self.entries@[i].0 != self.entries@[j].0
    }

    closed spec fn has(&self, k: K) -> bool {
        exists|i: int| 0 <= i < self.entries@.len() && self.entries@[i].0 == k
    }

    closed spec fn index_of(&self, k: K) -> int {
        choose|i: int| 0 <= i < self.entries@.len() && self.entries@[i].0 == k
    }

    /// The empty table.
    pub fn new() -> (t: Self)
        ensures
            t@ == Map::<K, V::V>::empty(),
    {
        let t = Table { entries: Vec::new() };
        assert(t@ =~= Map::<K, V::V>::empty());
        t
    }

    fn find(&self, k: &K) -> (r: Option<usize>)
        ensures
            match r {
                Some(i) => i < self.entries@.len() && self.entries@[i as int].0 == *k
                    && self.has(*k) && self.index_of(*k) == i,
                None => !self.has(*k),
            },
    {
        proof {
            use_type_invariant(self);
        }
        let mut i: usize = 0;
        while i < self.entries.len()
            invariant
                i <= self.entries@.len(),
                self.distinct_keys(),
                forall|j: int| 0 <= j < i ==> self.entries@[j].0 != *k,
            decreases self.entries@.len() - i,
        {
            if self.entries[i].0.same(k) {
                proof {
                    assert(self.has(*k));
                    let j = self.index_of(*k);
                    assert(self.entries@[j].0 == self.entries@[i as int].0);
                    assert(j == i);
                }
                return Some(i);
            }
            i += 1;
        }
        None
    }

    /// Whether the table holds `k`.
    pub fn contains_key(&self, k: &K) -> (b: bool)
        ensures
            b == self@.contains_key(*k),
    {
        self.find(k).is_some()
    }

    /// The value at `k`, if the table holds `k`.
    pub fn get(&self, k: &K) -> (r: Option<&V>)
        ensures
            match r {
                Some(v) => self@.contains_key(*k) && v@ == self@[*k],
                None => !self@.contains_key(*k),
            },
    {
        match self.find(k) {
            Some(i) => Some(&self.entries[i].1),
            None => None,
        }
    }

    /// Puts `v` at `k` and hands back the value that was there.
    pub fn insert(&mut self, k: K, v: V) -> (previous: Option<V>)
        ensures
            final(self)@ == old(self)@.insert(k, v@),
            match previous {
                Some(p) => old(self)@.contains_key(k) && p@ == old(self)@[k],
                None => !old(self)@.contains_key(k),
            },
    {
        proof {
            use_type_invariant(&*self);
        }
        let found = self.find(&k);
        let mut entries: Vec<(K, V)> = Vec::new();
        core::mem::swap(&mut entries, &mut self.entries);
        let ghost before = entries@;
        let previous = match found {
            Some(i) => {
                let gone = entries.swap_remove(i);
                Some(gone.1)
            },
            None => None,
        };
        let ghost middle = entries@;
        entries.push((k, v));
        proof {
            assert forall|a: int| 0 <= a < middle.len() implies middle[a].0 != k by {
                if found is Some {
                    let i = found->0 as int;
                    if a == i {
                        assert(middle[a] == before[before.len() - 1]);
                    } else {
                        assert(middle[a] == before[a]);
                    }
                }
            }
            assert forall|a: int, b: int| 0 <= a < b < middle.len() implies middle[a].0
                != middle[b].0 by {
                if found is Some {
                    let i = found->0 as int;
                    let a0 = if a == i { before.len() - 1 } else { a };
                    let b0 = if b == i { before.len() - 1 } else { b };
                    assert(middle[a] == before[a0]);
                    assert(middle[b] == before[b0]);
                }
            }
        }
        self.entries = entries;
        proof {
            let after = self.entries@;
            let last = after.len() - 1;
            assert(after[last].0 == k);
            let want = old(self)@.insert(k, v@);
            assert forall|x: K| #[trigger] final(self)@.contains_key(x) == want.contains_key(
                x,
            ) by {
                if x != k {
                    if old(self).has(x) {
                        let j = old(self).index_of(x);
                        let j1 = if found is Some && j == before.len() - 1 {
                            found->0 as int
                        } else {
                            j
                        };
                        assert(after[j1].0 == x);
                    }
                    if self.has(x) {
                        let j = self.index_of(x);
                        assert(j != last);
                        let j0 = if found is Some && j == found->0 as int {
                            before.len() - 1
                        } else {
                            j
                        };
                        assert(before[j0].0 == x);
                    }
                }
            }
            assert forall|x: K| final(self)@.contains_key(x) implies #[trigger] want[x]
                == final(self)@[x] by {
                let j = self.index_of(x);
                if x != k {
                    assert(j != last);
                    let j0 = if found is Some && j == found->0 as int {
                        before.len() - 1
                    } else {
                        j
                    };
                    assert(before[j0] == after[j]);
                    assert(old(self).index_of(x) == j0);
                } else {
                    assert(j == last);
                }
            }
            assert(final(self)@ =~= old(self)@.insert(k, v@));
        }
        previous
    }

    /// Takes `k` out of the table and hands back the value that was there.
    pub fn remove(&mut self, k: &K) -> (previous: Option<V>)
        ensures
            final(self)@ == old(self)@.remove(*k),
            match previous {
                Some(p) => old(self)@.contains_key(*k) && p@ == old(self)@[*k],
                None => !old(self)@.contains_key(*k),
            },
    {
        proof {
            use_type_invariant(&*self);
        }
        let found = self.find(k);
        match found {
            None => {
                assert(final(self)@ =~= old(self)@.remove(*k));
                None
            },
            Some(i) => {
                let mut entries: Vec<(K, V)> = Vec::new();
                core::mem::swap(&mut entries, &mut self.entries);
                let ghost before = entries@;
                let gone = entries.swap_remove(i);
                let ghost after = entries@;
                proof {
                    assert forall|a: int, b: int| 0 <= a < b < after.len() implies after[a].0
                        != after[b].0 by {
                        let a0 = if a == i { before.len() - 1 } else { a };
                        let b0 = if b == i { before.len() - 1 } else { b };
                        assert(after[a] == before[a0]);
                        assert(after[b] == before[b0]);
                    }
                }
                self.entries = entries;
                proof {
                    let want = old(self)@.remove(*k);
                    assert forall|x: K| #[trigger] final(self)@.contains_key(x)
                        == want.contains_key(x) by {
                        if old(self).has(x) && x != *k {
                            let j = old(self).index_of(x);
                            let j1 = if j == before.len() - 1 { i as int } else { j };
                            assert(after[j1].0 == x);
                        }
                        if self.has(x) {
                            let j = self.index_of(x);
                            let j0 = if j == i { before.len() - 1 } else { j };
                            assert(before[j0] == after[j]);
                        }
                    }
                    assert forall|x: K| final(self)@.contains_key(x) implies #[trigger] want[x]
                        == final(self)@[x] by {
                        let j = self.index_of(x);
                        let j0 = if j == i { before.len() - 1 } else { j };
                        assert(before[j0] == after[j]);
                        assert(old(self).index_of(x) == j0);
                    }
                    assert(final(self)@ =~= old(self)@.remove(*k));
                }
                Some(gone.1)
            },
        }
    }

    /// The keys that the table holds, each once.
    pub fn keys(&self) -> (out: Vec<K>)
        ensures
            forall|k: K| out@.contains(k) <==> #[trigger] self@.contains_key(k),
            out@.no_duplicates(),
    {
        proof {
            use_type_invariant(self);
        }
        let mut out: Vec<K> = Vec::new();
        let mut i: usize = 0;
        while i < self.entries.len()
            invariant
                i <= self.entries@.len(),
                out@.len() == i,
                forall|j: int| 0 <= j < i ==> out@[j] == self.entries@[j].0,
            decreases self.entries@.len() - i,
        {
            out.push(self.entries[i].0);
            i += 1;
        }
        proof {
            assert forall|k: K| out@.contains(k) <==> #[trigger] self@.contains_key(k) by {
                if out@.contains(k) {
                    let j = choose|j: int| 0 <= j < out@.len() && out@[j] == k;
                    assert(self.entries@[j].0 == k);
                }
                if self.has(k) {
                    let j = self.index_of(k);
                    assert(out@[j] == k);
                }
            }
        }
        out
    }
}

} // verus!
