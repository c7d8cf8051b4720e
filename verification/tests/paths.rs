use teralaunch::paths::{depth_zero, is_ignored, normalize_path, str_eq, str_starts_with};

fn ignore_set() -> Vec<String> {
    [
        "$Patch",
        "Binaries/cookies.dat",
        "S1Game/Logs",
        "S1Game/Screenshots",
        "S1Game/Config/S1Engine.ini",
        "Launcher.exe",
        "version.ini",
    ]
    .iter()
    .map(|s| s.to_string())
    .collect()
}

#[test]
fn normalize_replaces_backslashes() {
    assert_eq!(normalize_path("a\\b\\c.txt"), "a/b/c.txt");
}

#[test]
fn normalize_keeps_forward_slashes() {
    assert_eq!(normalize_path("a/b/c.txt"), "a/b/c.txt");
}

#[test]
fn depth_zero_detects_root_files() {
    assert!(depth_zero("readme.txt"));
    assert!(!depth_zero("dir/readme.txt"));
}

#[test]
fn root_level_file_is_ignored() {
    assert!(is_ignored("local.db", &ignore_set()));
    assert!(is_ignored("anything-at-root", &ignore_set()));
}

#[test]
fn ignored_prefix_matches() {
    assert!(is_ignored("S1Game/Logs/today.log", &ignore_set()));
    assert!(is_ignored("S1Game/Screenshots/a.png", &ignore_set()));
}

#[test]
fn ignored_prefix_matches_after_normalization() {
    assert!(is_ignored("S1Game\\Logs\\today.log", &ignore_set()));
}

#[test]
fn ordinary_nested_file_is_kept() {
    assert!(!is_ignored("S1Game/CookedPC/art.gpk", &ignore_set()));
    assert!(!is_ignored("Binaries/Tera.exe", &ignore_set()));
}

#[test]
fn prefix_check_is_literal() {
    assert!(str_starts_with("S1Game/Logs/x", "S1Game/Logs"));
    assert!(!str_starts_with("S1Game/Log", "S1Game/Logs"));
    assert!(str_starts_with("abc", ""));
}

#[test]
fn string_equality_by_characters() {
    assert!(str_eq("abc", "abc"));
    assert!(!str_eq("abc", "abd"));
    assert!(!str_eq("abc", "abcd"));
    assert!(str_eq("", ""));
}
