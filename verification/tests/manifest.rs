use teralaunch::hashing::sha256_hex;
use teralaunch::manifest::{build_manifest, derive_url, manifest_record, ScannedFile};

fn scanned(path: &str, size: u64) -> ScannedFile {
    ScannedFile { path: path.to_string(), size, hash: format!("hash-of-{}", path) }
}

fn ignore_set() -> Vec<String> {
    vec!["S1Game/Logs".to_string(), "$Patch".to_string()]
}

#[test]
fn url_is_base_then_files_then_path() {
    assert_eq!(
        derive_url("http://files.example", "a/b.bin"),
        "http://files.example/files/a/b.bin"
    );
}

#[test]
fn manifest_keeps_ordinary_files_in_scan_order() {
    let files = vec![scanned("a/one.bin", 10), scanned("b/two.bin", 20)];
    let (records, stats) = build_manifest(&files, &ignore_set(), "http://files.example");
    assert_eq!(records.len(), 2);
    assert_eq!(records[0].path, "a/one.bin");
    assert_eq!(records[0].size, 10);
    assert_eq!(records[0].hash, "hash-of-a/one.bin");
    assert_eq!(records[0].url, "http://files.example/files/a/one.bin");
    assert_eq!(records[1].path, "b/two.bin");
    assert_eq!(stats.files_processed, 2);
    assert_eq!(stats.total_bytes, 30);
}

#[test]
fn manifest_never_holds_root_level_files() {
    // A file at installation-root depth never appears, whatever its
    // content or size.
    let files = vec![scanned("local.db", 10), scanned("a/kept.bin", 20)];
    let (records, stats) = build_manifest(&files, &ignore_set(), "http://files.example");
    assert_eq!(records.len(), 1);
    assert_eq!(records[0].path, "a/kept.bin");
    assert_eq!(stats.files_processed, 1);
    assert_eq!(stats.total_bytes, 20);
}

#[test]
fn manifest_never_holds_ignored_prefixes() {
    let files = vec![
        scanned("S1Game/Logs/today.log", 100),
        scanned("$Patch/part.bin", 200),
        scanned("a/kept.bin", 20),
    ];
    let (records, _) = build_manifest(&files, &ignore_set(), "http://files.example");
    assert_eq!(records.len(), 1);
    assert_eq!(records[0].path, "a/kept.bin");
}

#[test]
fn manifest_paths_are_slash_normalized() {
    let files = vec![scanned("a\\sub\\file.bin", 5)];
    let (records, _) = build_manifest(&files, &ignore_set(), "http://files.example");
    assert_eq!(records[0].path, "a/sub/file.bin");
    assert_eq!(records[0].url, "http://files.example/files/a/sub/file.bin");
}

#[test]
fn scan_counters_are_exact() {
    // However the per-file hashing was scheduled, the counters must be
    // exact: the processed count equals the number of kept files, the
    // byte total their summed sizes.
    let files: Vec<ScannedFile> =
        (0..250).map(|i| scanned(&format!("d/f{}.bin", i), i as u64)).collect();
    let (records, stats) = build_manifest(&files, &ignore_set(), "http://files.example");
    assert_eq!(records.len(), 250);
    assert_eq!(stats.files_processed, 250);
    assert_eq!(stats.total_bytes, (0..250u64).sum::<u64>());
}

#[test]
fn record_from_contents_hashes_the_bytes() {
    let contents: Vec<u8> = b"abc".to_vec();
    let rec = manifest_record("a/b.bin", &contents, "http://files.example");
    assert_eq!(rec.path, "a/b.bin");
    assert_eq!(rec.size, 3);
    assert_eq!(rec.hash, sha256_hex(b"abc"));
    assert_eq!(
        rec.hash,
        "ba7816bf8f01cfea414140de5dae2223b00361a396177a9cb410ff61f20015ad"
    );
    assert_eq!(rec.url, "http://files.example/files/a/b.bin");
}
