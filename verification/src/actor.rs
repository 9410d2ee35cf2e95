//! The connection actor's request bookkeeping: the directory cache it
//! consults and maintains, and the disconnect reason it records when a
//! fatal error or an explicit disconnect ends the loop.

use vstd::prelude::*;
use crate::dir_cache::{DirectoryCache, fresh_at};
use crate::error::{SshError, error_message, error_message_spec, is_fatal_spec,
    is_fatal_connection_error};
use crate::paths::{normalize_dir_path, normalize_dir_spec, parent_dir_spec};
use crate::sftp::{SftpEntry, entries_view};

verus! {

/// Directory-cache time-to-live, in milliseconds.
pub const DIR_CACHE_TTL_MS: u64 = 10_000;

/// Directory-cache capacity.
pub const DIR_CACHE_MAX_ENTRIES: usize = 128;

/// Capacity of the actor's request mailbox.
pub const ACTOR_MAILBOX_CAPACITY: usize = 64;

/// What the actor tracks across requests: its listing cache, the reason it
/// will report when its loop ends, and how many requests it has served.
pub struct ActorState {
    pub cache: DirectoryCache,
    pub disconnect_reason: Option<String>,
    pub request_count: u64,
}

impl ActorState {
    pub open spec fn wf(&self) -> bool {
        self.cache.wf()
    }

    /// A fresh actor: an empty cache with the standard bounds, no reason,
    /// no requests served.
    pub fn new() -> (r: Self)
        ensures
            r.wf(),
            r.cache.ttl_ms == DIR_CACHE_TTL_MS,
            r.cache.max_entries == DIR_CACHE_MAX_ENTRIES,
            r.cache.slots.spec_len() == 0,
            r.disconnect_reason is None,
            r.request_count == 0,
    {
        ActorState {
            cache: DirectoryCache::new(DIR_CACHE_TTL_MS, DIR_CACHE_MAX_ENTRIES),
            disconnect_reason: None,
            request_count: 0,
        }
    }

    /// Count one served request.
    pub fn note_request(&mut self)
        ensures
            final(self).request_count == (old(self).request_count + 1) % 0x1_0000_0000_0000_0000,
            final(self).cache == old(self).cache,
            final(self).disconnect_reason == old(self).disconnect_reason,
    {
        self.request_count = self.request_count.wrapping_add(1);
    }

    /// Consult the cache for a listing request: a fresh entry under the
    /// normalized path answers without touching the network; a stale one is
    /// dropped on the way out.
    pub fn check_list_dir_cache(&mut self, path: &str, now_ms: u64) -> (r: Option<Vec<SftpEntry>>)
        requires
            old(self).wf(),
        ensures
            final(self).wf(),
            final(self).disconnect_reason == old(self).disconnect_reason,
            final(self).request_count == old(self).request_count,
            final(self).cache.same_shape(&old(self).cache),
            old(self).cache.slots.has_key(normalize_dir_spec(path@)) && fresh_at(
                now_ms,
                old(self).cache.slots.value_at(normalize_dir_spec(path@)).created_at,
                old(self).cache.ttl_ms,
            ) ==> (r matches Some(v) && entries_view(v@) == entries_view(
                old(self).cache.slots.value_at(normalize_dir_spec(path@)).entries@,
            ) && *final(self) == *old(self)),
            !old(self).cache.slots.has_key(normalize_dir_spec(path@)) ==> r is None && *final(self) == *old(self),
            r is None ==> !final(self).cache.slots.has_key(normalize_dir_spec(path@)),
    {
        let key = normalize_dir_path(path);
        self.cache.get(key.as_str(), now_ms)
    }

    /// Record a successful listing: it is cached under the normalized path.
    pub fn note_list_dir_success(&mut self, path: &str, entries: Vec<SftpEntry>, now_ms: u64)
        requires
            old(self).wf(),
        ensures
            final(self).wf(),
            final(self).disconnect_reason == old(self).disconnect_reason,
            final(self).request_count == old(self).request_count,
            final(self).cache.same_shape(&old(self).cache),
            old(self).cache.slots.spec_len() <= old(self).cache.max_entries ==> final(self).cache.slots.spec_len() <= old(self).cache.max_entries,
            final(self).cache.slots.has_key(normalize_dir_spec(path@)) ==> final(self).cache.slots.value_at(normalize_dir_spec(path@)).created_at == now_ms && final(self).cache.slots.value_at(normalize_dir_spec(path@)).entries == entries,
            old(self).cache.slots.spec_len() + 1 <= old(self).cache.max_entries ==> final(self).cache.slots.has_key(normalize_dir_spec(path@)),
            forall|k: Seq<char>|
                k != normalize_dir_spec(path@) && #[trigger] final(self).cache.slots.has_key(k)
                    ==> old(self).cache.slots.has_key(k) && final(self).cache.slots.value_at(k)
                    == old(self).cache.slots.value_at(k),
    {
        let key = normalize_dir_path(path);
        self.cache.put(key, entries, now_ms);
    }

    /// Record a successful write or create on `path`: the cached listing of
    /// its parent directory is dropped.
    pub fn note_mutation_success(&mut self, path: &str)
        requires
            old(self).wf(),
        ensures
            final(self).wf(),
            final(self).disconnect_reason == old(self).disconnect_reason,
            final(self).request_count == old(self).request_count,
            final(self).cache.same_shape(&old(self).cache),
            parent_dir_spec(path@) matches Some(p) ==> !final(self).cache.slots.has_key(p),
            forall|k: Seq<char>|
                parent_dir_spec(path@) != Some(k) ==> #[trigger] final(self).cache.slots.has_key(
                    k,
                ) == old(self).cache.slots.has_key(k),
    {
        self.cache.invalidate_parent_of_path(path);
    }

    /// Record a successful delete of `path`: both its own cached listing
    /// and its parent's are dropped.
    pub fn note_delete_success(&mut self, path: &str)
        requires
            old(self).wf(),
        ensures
            final(self).wf(),
            final(self).disconnect_reason == old(self).disconnect_reason,
            final(self).request_count == old(self).request_count,
            final(self).cache.same_shape(&old(self).cache),
            !final(self).cache.slots.has_key(normalize_dir_spec(path@)),
            parent_dir_spec(path@) matches Some(p) ==> !final(self).cache.slots.has_key(p),
            forall|k: Seq<char>|
                k != normalize_dir_spec(path@) && parent_dir_spec(path@) != Some(k)
                    ==> #[trigger] final(self).cache.slots.has_key(k) == old(self).cache.slots.has_key(k),
    {
        self.cache.invalidate_path_and_parent(path);
    }

    /// Record a successful rename: the cached listings of both parents are
    /// dropped.
    pub fn note_rename_success(&mut self, old_path: &str, new_path: &str)
        requires
            old(self).wf(),
        ensures
            final(self).wf(),
            final(self).disconnect_reason == old(self).disconnect_reason,
            final(self).request_count == old(self).request_count,
            final(self).cache.same_shape(&old(self).cache),
            parent_dir_spec(old_path@) matches Some(p) ==> !final(self).cache.slots.has_key(p),
            parent_dir_spec(new_path@) matches Some(p) ==> !final(self).cache.slots.has_key(p),
            forall|k: Seq<char>|
                parent_dir_spec(old_path@) != Some(k) && parent_dir_spec(new_path@) != Some(k)
                    ==> #[trigger] final(self).cache.slots.has_key(k) == old(self).cache.slots.has_key(k),
    {
        self.cache.invalidate_parent_of_path(old_path);
        self.cache.invalidate_parent_of_path(new_path);
    }

    /// Inspect an operation's error: a fatal one records the disconnect
    /// reason that ends the actor loop; transient SFTP troubles do not.
    pub fn note_error(&mut self, e: &SshError)
        requires
            old(self).wf(),
        ensures
            final(self).wf(),
            final(self).cache == old(self).cache,
            final(self).request_count == old(self).request_count,
            is_fatal_spec(e) ==> (final(self).disconnect_reason matches Some(m) && m@
                == error_message_spec(e)),
            !is_fatal_spec(e) ==> final(self).disconnect_reason == old(self).disconnect_reason,
    {
        if is_fatal_connection_error(e) {
            self.disconnect_reason = Some(error_message(e));
        }
    }

    /// Record that the user asked to disconnect.
    pub fn note_disconnect_request(&mut self)
        ensures
            final(self).cache == old(self).cache,
            final(self).request_count == old(self).request_count,
            final(self).disconnect_reason matches Some(m) && m@
                == "User requested disconnect"@,
    {
        let mut m = String::new();
        m.append("User requested disconnect");
        self.disconnect_reason = Some(m);
    }

    /// The reason reported when the loop ends: what was recorded, or the
    /// mailbox-closure message when nothing was.
    pub fn closing_reason(&mut self) -> (r: String)
        ensures
            final(self).cache == old(self).cache,
            final(self).request_count == old(self).request_count,
            match old(self).disconnect_reason {
                Some(m) => r@ == m@,
                None => r@ == "Channel closed (all senders dropped)"@,
            },
            final(self).disconnect_reason matches Some(m) && m@ == r@,
    {
        match &self.disconnect_reason {
            Some(m) => m.clone(),
            None => {
                let mut m = String::new();
                m.append("Channel closed (all senders dropped)");
                let r = m.clone();
                self.disconnect_reason = Some(m);
                r
            },
        }
    }
}

} // verus!
