use driftcode::actor::{ActorState, DIR_CACHE_MAX_ENTRIES, DIR_CACHE_TTL_MS};
use driftcode::dir_cache::DirectoryCache;
use driftcode::sftp::SftpEntry;

fn entry(name: &str, dir: bool) -> SftpEntry {
    SftpEntry {
        name: String::from(name),
        is_directory: dir,
        size: 10,
        mtime: 1_700_000_000,
        permissions: None,
    }
}

#[test]
fn cache_hit_within_ttl() {
    let mut cache = DirectoryCache::new(10_000, 128);
    cache.put(String::from("/home/alice"), vec![entry("a", false), entry("b", true)], 1_000);
    let got = cache.get("/home/alice", 5_000).expect("fresh entry");
    assert_eq!(got.len(), 2);
    assert_eq!(got[0].name, "a");
    assert_eq!(got[1].name, "b");
    assert!(got[1].is_directory);
}

#[test]
fn cache_miss_after_ttl() {
    let mut cache = DirectoryCache::new(10_000, 128);
    cache.put(String::from("/home/alice"), vec![entry("a", false)], 1_000);
    assert!(cache.get("/home/alice", 11_000).is_some());
    assert!(cache.get("/home/alice", 11_001).is_none());
    // the stale slot was dropped on the way out
    assert!(cache.get("/home/alice", 1_000).is_none());
}

#[test]
fn cache_eviction_is_oldest_first() {
    let mut cache = DirectoryCache::new(10_000, 2);
    cache.put(String::from("/a"), vec![entry("a", false)], 100);
    cache.put(String::from("/b"), vec![entry("b", false)], 200);
    cache.put(String::from("/c"), vec![entry("c", false)], 300);
    assert!(cache.get("/a", 301).is_none());
    assert!(cache.get("/b", 301).is_some());
    assert!(cache.get("/c", 301).is_some());
}

#[test]
fn trailing_slash_shares_one_slot() {
    let mut actor = ActorState::new();
    actor.note_list_dir_success("/a/", vec![entry("x", false)], 1_000);
    let via_plain = actor.check_list_dir_cache("/a", 2_000).expect("same slot");
    assert_eq!(via_plain.len(), 1);
    assert_eq!(via_plain[0].name, "x");
    let via_slash = actor.check_list_dir_cache("/a/", 2_000).expect("same slot");
    assert_eq!(via_slash.len(), 1);
}

#[test]
fn directory_cache_scenario() {
    // a listing is served from the wire once, then from the cache, and a
    // write under the directory forces the next listing back to the wire
    let mut actor = ActorState::new();
    assert!(actor.check_list_dir_cache("/home/alice", 1_000).is_none());
    let wire = vec![entry("a.txt", false), entry("b.txt", false), entry("docs", true)];
    actor.note_list_dir_success("/home/alice", wire, 1_000);
    let cached = actor.check_list_dir_cache("/home/alice", 5_000).expect("cached");
    assert_eq!(cached.len(), 3);
    actor.note_mutation_success("/home/alice/x.txt");
    assert!(actor.check_list_dir_cache("/home/alice", 5_000).is_none());
}

#[test]
fn delete_invalidates_path_and_parent() {
    let mut actor = ActorState::new();
    actor.note_list_dir_success("/home/alice", vec![entry("sub", true)], 1_000);
    actor.note_list_dir_success("/home/alice/sub", vec![entry("f", false)], 1_000);
    actor.note_delete_success("/home/alice/sub");
    assert!(actor.check_list_dir_cache("/home/alice", 2_000).is_none());
    assert!(actor.check_list_dir_cache("/home/alice/sub", 2_000).is_none());
}

#[test]
fn rename_invalidates_both_parents() {
    let mut actor = ActorState::new();
    actor.note_list_dir_success("/src", vec![entry("f", false)], 1_000);
    actor.note_list_dir_success("/dst", vec![], 1_000);
    actor.note_list_dir_success("/other", vec![], 1_000);
    actor.note_rename_success("/src/f", "/dst/f");
    assert!(actor.check_list_dir_cache("/src", 2_000).is_none());
    assert!(actor.check_list_dir_cache("/dst", 2_000).is_none());
    assert!(actor.check_list_dir_cache("/other", 2_000).is_some());
}

#[test]
fn actor_constants() {
    assert_eq!(DIR_CACHE_TTL_MS, 10_000);
    assert_eq!(DIR_CACHE_MAX_ENTRIES, 128);
}

#[test]
fn actor_counts_and_reasons() {
    let mut actor = ActorState::new();
    actor.note_request();
    actor.note_request();
    assert_eq!(actor.request_count, 2);
    assert!(actor.disconnect_reason.is_none());
    let reason = actor.closing_reason();
    assert_eq!(reason, "Channel closed (all senders dropped)");
    let mut actor2 = ActorState::new();
    actor2.note_disconnect_request();
    assert_eq!(actor2.closing_reason(), "User requested disconnect");
}
