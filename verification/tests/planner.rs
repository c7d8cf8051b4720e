use teralaunch::cache::{CacheEntry, HashCache};
use teralaunch::planner::{
    apply_hash_result, build_plan, check_metadata, evaluate_record, update_required, LocalFile,
    LocalMeta, MetaDecision,
};
use teralaunch::records::FileRecord;
use teralaunch::strmap::StrMap;

fn record(path: &str, hash: &str, size: u64) -> FileRecord {
    FileRecord {
        path: path.to_string(),
        hash: hash.to_string(),
        size,
        url: format!("http://files.example/files/{}", path),
    }
}

fn present(size: u64, modified: Option<u64>, hash: Option<&str>) -> LocalFile {
    LocalFile {
        meta: LocalMeta::Present { size, modified },
        hash: hash.map(|h| h.to_string()),
    }
}

#[test]
fn absent_file_needs_download() {
    let mut cache: HashCache = StrMap::new();
    let remote = record("a/f.bin", "aa", 10);
    let local = LocalFile { meta: LocalMeta::Absent, hash: None };
    assert!(evaluate_record(&remote, &local, &mut cache, 7));
}

#[test]
fn unreadable_metadata_needs_download() {
    let mut cache: HashCache = StrMap::new();
    let remote = record("a/f.bin", "aa", 10);
    let local = LocalFile { meta: LocalMeta::Unreadable, hash: None };
    assert!(evaluate_record(&remote, &local, &mut cache, 7));
}

#[test]
fn valid_cache_hit_skips_without_hashing() {
    let mut cache: HashCache = StrMap::new();
    cache.insert(
        "a/f.bin".to_string(),
        CacheEntry { hash: "aa".to_string(), last_modified: 5 },
    );
    let remote = record("a/f.bin", "aa", 10);
    // No hash supplied: the ladder must decide from the cache alone.
    let local = present(10, Some(5), None);
    assert!(!evaluate_record(&remote, &local, &mut cache, 7));
}

#[test]
fn stale_mtime_invalidates_cache_entry() {
    let mut cache: HashCache = StrMap::new();
    cache.insert(
        "a/f.bin".to_string(),
        CacheEntry { hash: "aa".to_string(), last_modified: 5 },
    );
    let remote = record("a/f.bin", "aa", 10);
    // Modification time moved on: the entry is not trusted; the local
    // hash decides, and here it still matches.
    let local = present(10, Some(6), Some("aa"));
    assert!(!evaluate_record(&remote, &local, &mut cache, 7));
    // The re-hash refreshed the entry's stamp.
    let entry = cache.get("a/f.bin").unwrap();
    assert_eq!(entry.last_modified, 6);
}

#[test]
fn size_mismatch_needs_download_without_hashing() {
    let mut cache: HashCache = StrMap::new();
    let remote = record("a/f.bin", "aa", 10);
    let local = present(11, Some(5), None);
    assert!(evaluate_record(&remote, &local, &mut cache, 7));
}

#[test]
fn size_mismatch_detected_despite_unchanged_mtime() {
    // Content mutated without the recorded modification time changing;
    // the cached hash no longer matches the remote hash, so the cache
    // cannot excuse the file, and the cheap size check catches it.
    let mut cache: HashCache = StrMap::new();
    cache.insert(
        "a/f.bin".to_string(),
        CacheEntry { hash: "old".to_string(), last_modified: 5 },
    );
    let remote = record("a/f.bin", "new", 10);
    let local = present(12, Some(5), None);
    assert!(evaluate_record(&remote, &local, &mut cache, 7));
}

#[test]
fn cache_blind_spot_same_size_same_mtime() {
    // The documented limitation: a valid cache entry equal to the
    // remote hash excuses the file outright, content unseen.
    let mut cache: HashCache = StrMap::new();
    cache.insert(
        "a/f.bin".to_string(),
        CacheEntry { hash: "aa".to_string(), last_modified: 5 },
    );
    let remote = record("a/f.bin", "aa", 10);
    let local = present(10, Some(5), Some("bb"));
    assert!(!evaluate_record(&remote, &local, &mut cache, 7));
}

#[test]
fn hash_mismatch_needs_download_and_warms_cache() {
    let mut cache: HashCache = StrMap::new();
    let remote = record("a/f.bin", "aa", 10);
    let local = present(10, Some(5), Some("bb"));
    assert!(evaluate_record(&remote, &local, &mut cache, 7));
    // The locally computed hash was recorded even though the file is
    // about to be replaced.
    let entry = cache.get("a/f.bin").unwrap();
    assert_eq!(entry.hash, "bb");
    assert_eq!(entry.last_modified, 5);
}

#[test]
fn unreadable_mtime_stamps_cache_with_now() {
    let mut cache: HashCache = StrMap::new();
    let remote = record("a/f.bin", "aa", 10);
    let local = present(10, None, Some("bb"));
    assert!(evaluate_record(&remote, &local, &mut cache, 99));
    assert_eq!(cache.get("a/f.bin").unwrap().last_modified, 99);
}

#[test]
fn failed_local_hash_needs_download() {
    let mut cache: HashCache = StrMap::new();
    let remote = record("a/f.bin", "aa", 10);
    let local = present(10, Some(5), None);
    let d = check_metadata(&remote, &local.meta, &cache);
    assert!(matches!(d, MetaDecision::NeedHash));
    let needed = apply_hash_result(&remote, Some(5), &None, &mut cache, 7);
    assert!(needed);
    // A failed hash leaves the cache alone.
    assert!(cache.get("a/f.bin").is_none());
}

#[test]
fn full_resync_plans_every_file_in_order() {
    let mut cache: HashCache = StrMap::new();
    let records = vec![
        record("a/one.bin", "h1", 10),
        record("a/two.bin", "h2", 20),
        record("a/three.bin", "h3", 30),
    ];
    let locals = vec![
        LocalFile { meta: LocalMeta::Absent, hash: None },
        LocalFile { meta: LocalMeta::Absent, hash: None },
        LocalFile { meta: LocalMeta::Absent, hash: None },
    ];
    let (plan, stats) = build_plan(&records, &locals, &mut cache, 7);
    assert_eq!(plan.len(), 3);
    assert_eq!(plan[0].path, "a/one.bin");
    assert_eq!(plan[1].path, "a/two.bin");
    assert_eq!(plan[2].path, "a/three.bin");
    assert_eq!(stats.files_checked, 3);
    assert_eq!(stats.files_to_update, 3);
    assert_eq!(stats.total_bytes, 60);
    assert!(update_required(&plan));
}

#[test]
fn partial_update_plans_only_the_changed_file() {
    let mut cache: HashCache = StrMap::new();
    cache.insert(
        "a/a.bin".to_string(),
        CacheEntry { hash: "ha".to_string(), last_modified: 1 },
    );
    cache.insert(
        "a/b.bin".to_string(),
        CacheEntry { hash: "hb".to_string(), last_modified: 2 },
    );
    let records = vec![
        record("a/a.bin", "ha", 10),
        record("a/b.bin", "hb", 20),
        record("a/c.bin", "hc", 30),
    ];
    let locals = vec![
        present(10, Some(1), None),
        present(20, Some(2), None),
        present(29, Some(3), None),
    ];
    let (plan, stats) = build_plan(&records, &locals, &mut cache, 7);
    assert_eq!(plan.len(), 1);
    assert_eq!(plan[0].path, "a/c.bin");
    assert_eq!(plan[0].hash, "hc");
    assert_eq!(stats.files_to_update, 1);
    assert_eq!(stats.total_bytes, 30);
}

#[test]
fn second_pass_is_empty_after_matching_first_pass() {
    // First pass: cold cache, every file matches once hashed; the pass
    // plans nothing and warms the cache.
    let mut cache: HashCache = StrMap::new();
    let records = vec![record("a/a.bin", "ha", 10), record("a/b.bin", "hb", 20)];
    let locals_first = vec![
        present(10, Some(1), Some("ha")),
        present(20, Some(2), Some("hb")),
    ];
    let (plan1, _) = build_plan(&records, &locals_first, &mut cache, 7);
    assert!(plan1.is_empty());
    assert!(!update_required(&plan1));
    // Second pass, nothing changed on disk: every file is now a cache
    // hit; no hash is even supplied.
    let locals_second = vec![present(10, Some(1), None), present(20, Some(2), None)];
    let (plan2, stats2) = build_plan(&records, &locals_second, &mut cache, 8);
    assert!(plan2.is_empty());
    assert_eq!(stats2.files_checked, 2);
    assert_eq!(stats2.total_bytes, 0);
}

#[test]
fn second_pass_repeats_first_pass_plan_when_nothing_changed() {
    // A file that differs from the remote stays planned on every pass
    // while the disk does not change.
    let mut cache: HashCache = StrMap::new();
    let records = vec![record("a/a.bin", "remote", 10)];
    let locals = vec![present(10, Some(1), Some("local"))];
    let (plan1, _) = build_plan(&records, &locals, &mut cache, 7);
    assert_eq!(plan1.len(), 1);
    let (plan2, _) = build_plan(&records, &locals, &mut cache, 8);
    assert_eq!(plan2.len(), 1);
    assert_eq!(plan2[0].path, "a/a.bin");
}
