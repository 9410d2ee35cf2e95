//! A small association map with string keys, kept as a vector of pairs with
//! pairwise-distinct keys. It backs the directory cache and the host-key
//! store, whose contracts are stated over `has_key` / `value_at`.

use vstd::prelude::*;
use crate::text::str_eq;

verus! {

pub struct StrMap<V> {
    pub entries: Vec<(String, V)>,
}

impl<V> StrMap<V> {
    /// Keys are pairwise distinct.
    pub open spec fn wf(&self) -> bool {
        forall|i: int, j: int|
            0 <= i < j < self.entries@.len() ==> self.entries@[i].0@ != self.entries@[j].0@
    }

    pub open spec fn has_key(&self, k: Seq<char>) -> bool {
        exists|i: int| 0 <= i < self.entries@.len() && self.entries@[i].0@ == k
    }

    pub open spec fn key_index(&self, k: Seq<char>) -> int {
        choose|i: int| 0 <= i < self.entries@.len() && self.entries@[i].0@ == k
    }

    /// The value stored under `k` (meaningful only when `has_key(k)`).
    pub open spec fn value_at(&self, k: Seq<char>) -> V {
        self.entries@[self.key_index(k)].1
    }

    pub open spec fn spec_len(&self) -> nat {
        self.entries@.len()
    }

    /// With distinct keys, any index holding `k` is the index of `k`.
    pub proof fn lemma_key_index(&self, k: Seq<char>, i: int)
        requires
            self.wf(),
            0 <= i < self.entries@.len(),
            self.entries@[i].0@ == k,
        ensures
            self.key_index(k) == i,
            self.has_key(k),
            self.value_at(k) == self.entries@[i].1,
    {
        let j = self.key_index(k);
        assert(0 <= j < self.entries@.len() && self.entries@[j].0@ == k);
        if i < j {
            assert(self.entries@[i].0@ != self.entries@[j].0@);
        } else if j < i {
            assert(self.entries@[j].0@ != self.entries@[i].0@);
        }
    }

    /// An empty map.
    pub fn new() -> (r: Self)
        ensures
            r.wf(),
            r.spec_len() == 0,
            forall|k: Seq<char>| !r.has_key(k),
    {
        StrMap { entries: Vec::new() }
    }

    pub fn len(&self) -> (n: usize)
        ensures
            n == self.spec_len(),
    {
        self.entries.len()
    }

    /// The position of `key`, if present.
    pub fn index_of(&self, key: &str) -> (r: Option<usize>)
        requires
            self.wf(),
        ensures
            match r {
                Some(i) => i < self.entries@.len() && self.entries@[i as int].0@ == key@
                    && self.has_key(key@) && self.key_index(key@) == i,
                None => !self.has_key(key@),
            },
    {
        let mut i: usize = 0;
        while i < self.entries.len()
            invariant
                self.wf(),
                i <= self.entries@.len(),
                forall|j: int| 0 <= j < i ==> self.entries@[j].0@ != key@,
            decreases self.entries@.len() - i,
        {
            if str_eq(self.entries[i].0.as_str(), key) {
                proof {
                    self.lemma_key_index(key@, i as int);
                }
                return Some(i);
            }
            i = i + 1;
        }
        None
    }

    /// Borrow the value stored under `key`.
    pub fn get_ref(&self, key: &str) -> (r: Option<&V>)
        requires
            self.wf(),
        ensures
            match r {
                Some(v) => self.has_key(key@) && *v == self.value_at(key@),
                None => !self.has_key(key@),
            },
    {
        match self.index_of(key) {
            Some(i) => Some(&self.entries[i].1),
            None => None,
        }
    }

    /// Remove the entry under `key`, if any, and return its value.
    pub fn remove_entry(&mut self, key: &str) -> (r: Option<V>)
        requires
            old(self).wf(),
        ensures
            final(self).wf(),
            !final(self).has_key(key@),
            match r {
                Some(v) => old(self).has_key(key@) && v == old(self).value_at(key@)
                    && final(self).spec_len() == old(self).spec_len() - 1,
                None => !old(self).has_key(key@) && final(self).spec_len() == old(
                    self,
                ).spec_len(),
            },
            forall|k: Seq<char>|
                k != key@ ==> #[trigger] final(self).has_key(k) == old(self).has_key(k),
            forall|k: Seq<char>|
                k != key@ && old(self).has_key(k) ==> #[trigger] final(self).value_at(k) == old(
                    self,
                ).value_at(k),
    {
        match self.index_of(key) {
            Some(i) => {
                let ghost pre = self.entries@;
                let (_, v) = self.entries.remove(i);
                proof {
                    assert(self.entries@ =~= pre.subrange(0, i as int) + pre.subrange(
                        i + 1,
                        pre.len() as int,
                    ));
                    assert forall|k: Seq<char>| k != key@ implies #[trigger] self.has_key(k)
                        == old(self).has_key(k) by {
                        if old(self).has_key(k) {
                            let j = choose|j: int|
                                0 <= j < pre.len() && pre[j].0@ == k;
                            if j < i {
                                assert(self.entries@[j].0@ == k);
                            } else {
                                assert(pre[j].0@ != pre[i as int].0@);
                                assert(self.entries@[j - 1].0@ == k);
                            }
                        }
                        if self.has_key(k) {
                            let j = choose|j: int|
                                0 <= j < self.entries@.len() && self.entries@[j].0@ == k;
                            if j < i {
                                assert(pre[j].0@ == k);
                            } else {
                                assert(pre[j + 1].0@ == k);
                            }
                        }
                    }
                    assert forall|k: Seq<char>| k != key@ && old(self).has_key(k) implies
                        #[trigger] self.value_at(k) == old(self).value_at(k) by {
                        let j = choose|j: int| 0 <= j < pre.len() && pre[j].0@ == k;
                        old(self).lemma_key_index(k, j);
                        if j < i {
                            self.lemma_key_index(k, j);
                        } else {
                            assert(pre[j].0@ != pre[i as int].0@);
                            assert(self.entries@[j - 1] == pre[j]);
                            self.lemma_key_index(k, j - 1);
                        }
                    }
                    if self.has_key(key@) {
                        let j = choose|j: int|
                            0 <= j < self.entries@.len() && self.entries@[j].0@ == key@;
                        if j < i {
                            assert(pre[j].0@ == key@);
                            old(self).lemma_key_index(key@, j);
                        } else {
                            assert(pre[j + 1].0@ == key@);
                            old(self).lemma_key_index(key@, j + 1);
                        }
                        assert(false);
                    }
                }
                Some(v)
            },
            None => None,
        }
    }

    /// Insert `value` under `key`, replacing any previous entry.
    pub fn insert(&mut self, key: String, value: V)
        requires
            old(self).wf(),
        ensures
            final(self).wf(),
            final(self).has_key(key@),
            final(self).value_at(key@) == value,
            final(self).spec_len() == old(self).spec_len() + (if old(self).has_key(key@) {
                0int
            } else {
                1int
            }),
            forall|k: Seq<char>|
                k != key@ ==> #[trigger] final(self).has_key(k) == old(self).has_key(k),
            forall|k: Seq<char>|
                k != key@ && old(self).has_key(k) ==> #[trigger] final(self).value_at(k) == old(
                    self,
                ).value_at(k),
    {
        let _ = self.remove_entry(key.as_str());
        let ghost mid = *self;
        let ghost keyv = key@;
        self.entries.push((key, value));
        proof {
            let n = self.entries@.len() - 1;
            assert(self.entries@[n].0@ == keyv);
            assert forall|i: int, j: int|
                0 <= i < j < self.entries@.len() implies self.entries@[i].0@
                != self.entries@[j].0@ by {
                if j < n {
                    assert(mid.entries@[i] == self.entries@[i]);
                    assert(mid.entries@[j] == self.entries@[j]);
                } else {
                    assert(self.entries@[j].0@ == keyv);
                    if mid.has_key(self.entries@[i].0@) {
                    }
                    mid.lemma_key_index(self.entries@[i].0@, i);
                    assert(mid.has_key(self.entries@[i].0@));
                    assert(self.entries@[i].0@ != keyv);
                }
            }
            self.lemma_key_index(keyv, n);
            assert forall|k: Seq<char>| k != keyv implies #[trigger] self.has_key(k)
                == mid.has_key(k) by {
                if mid.has_key(k) {
                    let j = choose|j: int|
                        0 <= j < mid.entries@.len() && mid.entries@[j].0@ == k;
                    assert(self.entries@[j].0@ == k);
                }
                if self.has_key(k) {
                    let j = choose|j: int|
                        0 <= j < self.entries@.len() && self.entries@[j].0@ == k;
                    assert(j < n);
                    assert(mid.entries@[j].0@ == k);
                }
            }
            assert forall|k: Seq<char>| k != keyv && mid.has_key(k) implies #[trigger] self.value_at(
                k,
            ) == mid.value_at(k) by {
                let j = choose|j: int| 0 <= j < mid.entries@.len() && mid.entries@[j].0@ == k;
                mid.lemma_key_index(k, j);
                assert(self.entries@[j] == mid.entries@[j]);
                self.lemma_key_index(k, j);
            }
        }
    }
}

} // verus!
