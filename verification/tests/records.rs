use teralaunch::records::{records_from_raw, FileRecord, RawManifestEntry};

#[test]
fn raw_entries_default_missing_fields() {
    let entries = vec![
        RawManifestEntry {
            path: Some("a/b.bin".to_string()),
            hash: Some("aa".to_string()),
            size: Some(10),
            url: Some("http://x/files/a/b.bin".to_string()),
        },
        RawManifestEntry { path: None, hash: None, size: None, url: None },
    ];
    let records = records_from_raw(&entries);
    assert_eq!(records.len(), 2);
    assert_eq!(records[0].path, "a/b.bin");
    assert_eq!(records[0].hash, "aa");
    assert_eq!(records[0].size, 10);
    assert_eq!(records[0].url, "http://x/files/a/b.bin");
    assert_eq!(records[1].path, "");
    assert_eq!(records[1].hash, "");
    assert_eq!(records[1].size, 0);
    assert_eq!(records[1].url, "");
}

#[test]
fn duplicate_copies_every_field() {
    let r = FileRecord {
        path: "a".to_string(),
        hash: "b".to_string(),
        size: 3,
        url: "c".to_string(),
    };
    let d = r.duplicate();
    assert_eq!(d.path, "a");
    assert_eq!(d.hash, "b");
    assert_eq!(d.size, 3);
    assert_eq!(d.url, "c");
}
