//! Short-TTL memoization of directory listings, invalidated by mutations.
//!
//! Keys are normalized directory paths; each slot records its creation time
//! and the listed entries. The cache is bounded: when over capacity, the
//! slots with the oldest creation times are evicted first.

use vstd::prelude::*;
use crate::assoc::StrMap;
use crate::paths::{normalize_dir_path, normalize_dir_spec, parent_dir, parent_dir_spec};
use crate::sftp::{SftpEntry, duplicate_entries, entries_view};

verus! {

/// One cached listing.
pub struct CacheSlot {
    pub created_at: u64,
    pub entries: Vec<SftpEntry>,
}

/// Whether a slot created at `created_at` is still fresh at `now`, given a
/// time-to-live. A clock that moved backwards counts as age zero.
pub open spec fn fresh_at(now: u64, created_at: u64, ttl_ms: u64) -> bool {
    (if now >= created_at {
        now - created_at
    } else {
        0int
    }) <= ttl_ms
}

pub struct DirectoryCache {
    pub ttl_ms: u64,
    pub max_entries: usize,
    pub slots: StrMap<CacheSlot>,
}

impl DirectoryCache {
    pub open spec fn wf(&self) -> bool {
        self.slots.wf()
    }

    /// Both bounds kept, all slots kept with their values.
    pub open spec fn same_shape(&self, other: &Self) -> bool {
        self.ttl_ms == other.ttl_ms && self.max_entries == other.max_entries
    }

    /// An empty cache with the given time-to-live and capacity.
    pub fn new(ttl_ms: u64, max_entries: usize) -> (r: Self)
        ensures
            r.wf(),
            r.ttl_ms == ttl_ms,
            r.max_entries == max_entries,
            r.slots.spec_len() == 0,
            forall|k: Seq<char>| !r.slots.has_key(k),
    {
        DirectoryCache { ttl_ms, max_entries, slots: StrMap::new() }
    }

    /// Look a normalized path up. A fresh slot's entries are returned and the
    /// cache is untouched; a stale slot is dropped on the way out.
    pub fn get(&mut self, path: &str, now_ms: u64) -> (r: Option<Vec<SftpEntry>>)
        requires
            old(self).wf(),
        ensures
            final(self).wf(),
            final(self).same_shape(old(self)),
            old(self).slots.has_key(path@) && fresh_at(
                now_ms,
                old(self).slots.value_at(path@).created_at,
                old(self).ttl_ms,
            ) ==> {
                &&& r matches Some(v) && entries_view(v@) == entries_view(
                    old(self).slots.value_at(path@).entries@,
                )
                &&& *final(self) == *old(self)
            },
            old(self).slots.has_key(path@) && !fresh_at(
                now_ms,
                old(self).slots.value_at(path@).created_at,
                old(self).ttl_ms,
            ) ==> {
                &&& r is None
                &&& !final(self).slots.has_key(path@)
                &&& forall|k: Seq<char>|
                    k != path@ ==> #[trigger] final(self).slots.has_key(k) == old(self).slots.has_key(k)
                &&& forall|k: Seq<char>|
                    k != path@ && old(self).slots.has_key(k) ==> #[trigger] final(self).slots.value_at(k) == old(self).slots.value_at(k)
            },
            !old(self).slots.has_key(path@) ==> r is None && *final(self) == *old(self),
    {
        let ttl = self.ttl_ms;
        let stale: bool;
        match self.slots.get_ref(path) {
            Some(slot) => {
                let age = if now_ms >= slot.created_at {
                    now_ms - slot.created_at
                } else {
                    0
                };
                if age <= ttl {
                    return Some(duplicate_entries(&slot.entries));
                }
                stale = true;
            },
            None => {
                return None;
            },
        }
        if stale {
            let _ = self.slots.remove_entry(path);
        }
        None
    }

    /// Insert a listing under a normalized path, then evict down to capacity.
    pub fn put(&mut self, path: String, entries: Vec<SftpEntry>, now_ms: u64)
        requires
            old(self).wf(),
        ensures
            final(self).wf(),
            final(self).same_shape(old(self)),
            old(self).slots.spec_len() <= old(self).max_entries ==> final(self).slots.spec_len()
                <= old(self).max_entries,
            old(self).slots.spec_len() + (if old(self).slots.has_key(path@) {
                0int
            } else {
                1int
            }) <= old(self).max_entries ==> {
                &&& final(self).slots.has_key(path@)
                &&& final(self).slots.value_at(path@).created_at == now_ms
                &&& final(self).slots.value_at(path@).entries == entries
                &&& forall|k: Seq<char>|
                    k != path@ ==> #[trigger] final(self).slots.has_key(k) == old(self).slots.has_key(k)
                &&& forall|k: Seq<char>|
                    k != path@ && old(self).slots.has_key(k) ==> #[trigger] final(self).slots.value_at(k) == old(self).slots.value_at(k)
            },
            forall|k: Seq<char>|
                k != path@ && #[trigger] final(self).slots.has_key(k) ==> old(self).slots.has_key(
                    k,
                ) && final(self).slots.value_at(k) == old(self).slots.value_at(k),
            final(self).slots.has_key(path@) ==> final(self).slots.value_at(path@).created_at
                == now_ms && final(self).slots.value_at(path@).entries == entries,
    {
        self.slots.insert(path, CacheSlot { created_at: now_ms, entries });
        self.evict_if_needed();
    }

    /// Drop the entry under a normalized path, if any.
    pub fn invalidate(&mut self, path: &str)
        requires
            old(self).wf(),
        ensures
            final(self).wf(),
            final(self).same_shape(old(self)),
            !final(self).slots.has_key(path@),
            forall|k: Seq<char>|
                k != path@ ==> #[trigger] final(self).slots.has_key(k) == old(self).slots.has_key(
                    k,
                ),
            forall|k: Seq<char>|
                k != path@ && old(self).slots.has_key(k) ==> #[trigger] final(self).slots.value_at(k) == old(self).slots.value_at(k),
    {
        let _ = self.slots.remove_entry(path);
    }

    /// After a mutation of `path`, drop the cached listing of its parent.
    pub fn invalidate_parent_of_path(&mut self, path: &str)
        requires
            old(self).wf(),
        ensures
            final(self).wf(),
            final(self).same_shape(old(self)),
            parent_dir_spec(path@) matches Some(p) ==> !final(self).slots.has_key(p),
            forall|k: Seq<char>|
                parent_dir_spec(path@) != Some(k) ==> #[trigger] final(self).slots.has_key(k)
                    == old(self).slots.has_key(k),
            forall|k: Seq<char>|
                parent_dir_spec(path@) != Some(k) && old(self).slots.has_key(k)
                    ==> #[trigger] final(self).slots.value_at(k) == old(self).slots.value_at(k),
    {
        match parent_dir(path) {
            Some(parent) => {
                self.invalidate(parent.as_str());
            },
            None => {},
        }
    }

    /// After a deletion of `path`, drop both its own cached listing and its
    /// parent's.
    pub fn invalidate_path_and_parent(&mut self, path: &str)
        requires
            old(self).wf(),
        ensures
            final(self).wf(),
            final(self).same_shape(old(self)),
            !final(self).slots.has_key(normalize_dir_spec(path@)),
            parent_dir_spec(path@) matches Some(p) ==> !final(self).slots.has_key(p),
            forall|k: Seq<char>|
                k != normalize_dir_spec(path@) && parent_dir_spec(path@) != Some(k)
                    ==> #[trigger] final(self).slots.has_key(k) == old(self).slots.has_key(k),
            forall|k: Seq<char>|
                k != normalize_dir_spec(path@) && parent_dir_spec(path@) != Some(k) && old(self).slots.has_key(k) ==> #[trigger] final(self).slots.value_at(k) == old(self).slots.value_at(k),
    {
        let normalized = normalize_dir_path(path);
        self.invalidate(normalized.as_str());
        self.invalidate_parent_of_path(path);
    }

    /// The key of a slot with the oldest creation time, if any slot exists.
    fn find_oldest(&self) -> (r: Option<String>)
        requires
            self.wf(),
        ensures
            match r {
                Some(key) => self.slots.has_key(key@) && forall|k: Seq<char>|
                    #[trigger] self.slots.has_key(k) ==> self.slots.value_at(
                        key@,
                    ).created_at <= self.slots.value_at(k).created_at,
                None => self.slots.spec_len() == 0,
            },
    {
        if self.slots.entries.len() == 0 {
            return None;
        }
        let mut best: usize = 0;
        let mut i: usize = 1;
        while i < self.slots.entries.len()
            invariant
                self.wf(),
                best < i <= self.slots.entries@.len(),
                forall|j: int|
                    0 <= j < i ==> self.slots.entries@[best as int].1.created_at
                        <= self.slots.entries@[j].1.created_at,
            decreases self.slots.entries@.len() - i,
        {
            if self.slots.entries[i].1.created_at < self.slots.entries[best].1.created_at {
                best = i;
            }
            i = i + 1;
        }
        let key = self.slots.entries[best].0.clone();
        proof {
            self.slots.lemma_key_index(key@, best as int);
            assert forall|k: Seq<char>| #[trigger] self.slots.has_key(k) implies
                self.slots.value_at(key@).created_at <= self.slots.value_at(k).created_at by {
                let j = choose|j: int|
                    0 <= j < self.slots.entries@.len() && self.slots.entries@[j].0@ == k;
                self.slots.lemma_key_index(k, j);
            }
        }
        Some(key)
    }

    /// Evict oldest-first until the cache is within capacity.
    pub fn evict_if_needed(&mut self)
        requires
            old(self).wf(),
        ensures
            final(self).wf(),
            final(self).same_shape(old(self)),
            final(self).slots.spec_len() <= old(self).max_entries || final(self).slots.spec_len()
                == old(self).slots.spec_len(),
            old(self).slots.spec_len() > old(self).max_entries ==> final(self).slots.spec_len()
                == old(self).max_entries,
            old(self).slots.spec_len() <= old(self).max_entries ==> *final(self) == *old(self),
            forall|k: Seq<char>|
                #[trigger] final(self).slots.has_key(k) ==> old(self).slots.has_key(k) && final(self).slots.value_at(k) == old(self).slots.value_at(k),
            forall|k1: Seq<char>, k2: Seq<char>|
                #![trigger old(self).slots.has_key(k1), final(self).slots.has_key(k2)]
                old(self).slots.has_key(k1) && !final(self).slots.has_key(k1) && final(self).slots.has_key(k2) ==> old(self).slots.value_at(k1).created_at <= old(self).slots.value_at(k2).created_at,
    {
        while self.slots.entries.len() > self.max_entries
            invariant
                self.wf(),
                self.same_shape(old(self)),
                forall|k: Seq<char>|
                    #[trigger] self.slots.has_key(k) ==> old(self).slots.has_key(k)
                        && self.slots.value_at(k) == old(self).slots.value_at(k),
                forall|k1: Seq<char>, k2: Seq<char>|
                    #![trigger old(self).slots.has_key(k1), self.slots.has_key(k2)]
                    old(self).slots.has_key(k1) && !self.slots.has_key(k1)
                        && self.slots.has_key(k2) ==> old(self).slots.value_at(
                        k1,
                    ).created_at <= old(self).slots.value_at(k2).created_at,
                self.slots.spec_len() <= old(self).slots.spec_len(),
                self.slots.spec_len() >= old(self).max_entries || self.slots.spec_len() == old(self).slots.spec_len(),
                old(self).slots.spec_len() <= old(self).max_entries ==> *self == *old(self),
            decreases self.slots.spec_len(),
        {
            match self.find_oldest() {
                Some(oldest_key) => {
                    let ghost pre = *self;
                    let _ = self.slots.remove_entry(oldest_key.as_str());
                    proof {
                        assert forall|k1: Seq<char>, k2: Seq<char>|
                            #![trigger old(self).slots.has_key(k1), self.slots.has_key(k2)]
                            old(self).slots.has_key(k1) && !self.slots.has_key(k1)
                                && self.slots.has_key(k2) implies old(self).slots.value_at(k1).created_at <= old(self).slots.value_at(
                            k2,
                        ).created_at by {
                            if pre.slots.has_key(k1) {
                                assert(k1 == oldest_key@);
                                assert(pre.slots.has_key(k2));
                            }
                        }
                    }
                },
                None => {
                    return;
                },
            }
        }
    }
}

} // verus!
