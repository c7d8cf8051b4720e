use teralaunch::cache::CacheEntry;
use teralaunch::config::{get_config_value, Config, SessionConfig};
use teralaunch::credentials::{set_credentials, Credentials};
use teralaunch::errors::SyncError;
use teralaunch::strmap::StrMap;

#[test]
fn config_lookup_returns_the_stored_value() {
    let mut config: Config = StrMap::new();
    config.insert("lang".to_string(), "en".to_string());
    config.insert("path".to_string(), "C:/Games/Tera".to_string());
    assert_eq!(get_config_value(&config, "lang"), "en");
    assert_eq!(get_config_value(&config, "path"), "C:/Games/Tera");
}

#[test]
fn config_insert_replaces_an_existing_key() {
    let mut config: Config = StrMap::new();
    config.insert("lang".to_string(), "en".to_string());
    config.insert("lang".to_string(), "fr".to_string());
    assert_eq!(get_config_value(&config, "lang"), "fr");
    assert_eq!(config.entry_count(), 1);
}

#[test]
fn config_get_reports_missing_keys() {
    let config: Config = StrMap::new();
    assert!(config.get("absent").is_none());
}

#[test]
fn strmap_holds_cache_entries() {
    let mut map: StrMap<CacheEntry> = StrMap::new();
    map.insert(
        "a/b.bin".to_string(),
        CacheEntry { hash: "aa".to_string(), last_modified: 5 },
    );
    let entry = map.get("a/b.bin").unwrap();
    assert_eq!(entry.hash, "aa");
    assert_eq!(entry.last_modified, 5);
    assert_eq!(map.entry_count(), 1);
    let (path, e) = map.entry_at(0);
    assert_eq!(path, "a/b.bin");
    assert_eq!(e.hash, "aa");
}

#[test]
fn session_config_requires_both_urls() {
    let ok = SessionConfig::from_urls(
        Some("http://hash.example/hash-file.json".to_string()),
        Some("http://files.example".to_string()),
    )
    .unwrap();
    assert_eq!(ok.hash_file_url, "http://hash.example/hash-file.json");
    assert_eq!(ok.files_server_url, "http://files.example");

    let missing_hash = SessionConfig::from_urls(None, Some("http://files.example".to_string()));
    assert!(matches!(missing_hash, Err(SyncError::Config(_))));

    let missing_files =
        SessionConfig::from_urls(Some("http://hash.example".to_string()), None);
    assert!(matches!(missing_files, Err(SyncError::Config(_))));
}

#[test]
fn credentials_roundtrip_each_field() {
    let mut creds = Credentials::new();
    creds.set_account_name("12345");
    creds.set_characters_count("2");
    creds.set_ticket("ticket-0001");
    creds.set_game_lang("en");
    creds.set_game_path("C:/Games/Tera");
    assert_eq!(creds.get_account_name(), "12345");
    assert_eq!(creds.get_characters_count(), "2");
    assert_eq!(creds.get_ticket(), "ticket-0001");
    assert_eq!(creds.get_game_lang(), "en");
    assert_eq!(creds.get_game_path(), "C:/Games/Tera");
}

#[test]
fn set_credentials_sets_all_fields_at_once() {
    let mut creds = Credentials::new();
    set_credentials(&mut creds, "acct", "3", "ticket", "fr", "/opt/tera");
    assert_eq!(creds.get_account_name(), "acct");
    assert_eq!(creds.get_characters_count(), "3");
    assert_eq!(creds.get_ticket(), "ticket");
    assert_eq!(creds.get_game_lang(), "fr");
    assert_eq!(creds.get_game_path(), "/opt/tera");
}
