//! Path construction tests.

use ecoindex_analyzer::paths::{
    chrome_triple_dir, get_target_triple, hash_url, hex_string, resolve_chrome_from_dir,
    resolve_chrome_path_from_resource_dir, AppPaths, Arch, Platform,
};

#[test]
fn test_app_paths_creation() {
    let paths = AppPaths::default();
    assert!(!paths.data_dir.is_empty());
}

#[test]
fn test_cache_file_for_url() {
    let paths = AppPaths::default();
    let cache_file = paths.cache_file_for_url("https://example.com");
    assert!(cache_file.ends_with(".json"));
}

#[test]
fn test_get_target_triple() {
    let triple = get_target_triple(Platform::Linux, Arch::X64);
    assert!(!triple.is_empty());
    assert_ne!(triple, "unknown");
}

#[test]
fn test_target_triples_exact() {
    assert_eq!(get_target_triple(Platform::Windows, Arch::X64), "x86_64-pc-windows-msvc");
    assert_eq!(get_target_triple(Platform::Linux, Arch::X64), "x86_64-unknown-linux-gnu");
    assert_eq!(get_target_triple(Platform::MacOs, Arch::X64), "x86_64-apple-darwin");
    assert_eq!(get_target_triple(Platform::MacOs, Arch::Arm64), "aarch64-apple-darwin");
    assert_eq!(get_target_triple(Platform::Linux, Arch::Arm64), "unknown");
    assert_eq!(get_target_triple(Platform::Windows, Arch::Other), "unknown");
}

#[test]
fn test_cache_file_name_is_url_hash() {
    let paths = AppPaths::from_data_dir(String::from("/data"));
    let cache_file = paths.cache_file_for_url("https://example.com");

    // The same byte-wise fold the library specifies.
    let mut expected_hash: u64 = 0;
    for b in "https://example.com".bytes() {
        expected_hash = expected_hash.wrapping_mul(31).wrapping_add(u64::from(b));
    }
    assert_eq!(cache_file, format!("/data/cache/{expected_hash:016x}.json"));
}

#[test]
fn test_hash_url_matches_fold() {
    let mut expected: u64 = 0;
    for b in "abc".bytes() {
        expected = expected.wrapping_mul(31).wrapping_add(u64::from(b));
    }
    assert_eq!(hash_url("abc"), expected);
    assert_eq!(hash_url(""), 0);
}

#[test]
fn test_hex_string_exact() {
    assert_eq!(hex_string(0, 16), "0000000000000000");
    assert_eq!(hex_string(0x1a2b3c4d5e6f7081, 16), "1a2b3c4d5e6f7081");
    assert_eq!(hex_string(255, 4), "00ff");
}

#[test]
fn test_app_paths_layout() {
    let p = AppPaths::from_data_dir(String::from("/home/u/.local/share/app"));
    assert_eq!(p.cache_dir, "/home/u/.local/share/app/cache");
    assert_eq!(p.logs_dir, "/home/u/.local/share/app/logs");
    assert_eq!(p.config_file, "/home/u/.local/share/app/config.json");
    assert_eq!(p.history_file(), "/home/u/.local/share/app/history.json");
}

#[test]
fn test_resolve_chrome_from_dir_per_platform() {
    assert_eq!(
        resolve_chrome_from_dir("/r", Platform::Windows),
        "/r/chrome-headless-shell.exe"
    );
    assert_eq!(resolve_chrome_from_dir("/r", Platform::Linux), "/r/chrome-headless-shell");
    assert_eq!(resolve_chrome_from_dir("/r", Platform::MacOs), "/r/chrome-headless-shell");
}

#[test]
fn test_resolve_chrome_path_from_resource_dir() {
    assert_eq!(
        resolve_chrome_path_from_resource_dir("/app/resources", Platform::Linux),
        "/app/resources/chrome/chrome-headless-shell"
    );
}

#[test]
fn test_chrome_triple_dir() {
    assert_eq!(
        chrome_triple_dir("/app/resources/binaries", "x86_64-unknown-linux-gnu"),
        "/app/resources/binaries/chrome-headless-shell-x86_64-unknown-linux-gnu"
    );
}
