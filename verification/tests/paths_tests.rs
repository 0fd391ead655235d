use kiro2api_core::paths::{
    account_store_path, bundled_runtime_candidates, command_in_path_candidates,
    default_runtime_data_dir, path_join, resource_dir_candidates, runtime_dir_for, store_path_for,
    system_runtime_candidates,
};
use kiro2api_core::strutil::{norm_opt, norm_str, str_contains};

#[test]
fn store_and_data_paths_have_the_conventional_tail() {
    assert!(account_store_path("/fallback").ends_with(".kiro-account-manager/accounts.json"));
    assert!(default_runtime_data_dir("/fallback").ends_with(".kiro-account-manager/kiro-rs"));
}

#[test]
fn base_choice_prefers_the_reported_directory() {
    assert_eq!(
        store_path_for(&Some("/data".to_string()), "/home"),
        "/data/.kiro-account-manager/accounts.json"
    );
    assert_eq!(store_path_for(&None, "/home"), "/home/.kiro-account-manager/accounts.json");
    assert_eq!(
        runtime_dir_for(&Some("/data".to_string()), "/home"),
        "/data/.kiro-account-manager/kiro-rs"
    );
    assert_eq!(runtime_dir_for(&None, "/home"), "/home/.kiro-account-manager/kiro-rs");
}

#[test]
fn join_inserts_one_separator() {
    assert_eq!(path_join("/a/b", "c.json"), "/a/b/c.json");
}

#[test]
fn search_path_candidates_follow_the_directories() {
    let dirs = vec!["/usr/bin".to_string(), "/opt/tools".to_string()];
    assert_eq!(
        command_in_path_candidates("kiro-rs", &dirs),
        vec!["/usr/bin/kiro-rs".to_string(), "/opt/tools/kiro-rs".to_string()]
    );
    assert_eq!(
        system_runtime_candidates(&dirs),
        vec![
            "/usr/bin/kiro-rs".to_string(),
            "/opt/tools/kiro-rs".to_string(),
            "/opt/homebrew/bin/kiro-rs".to_string(),
            "/usr/local/bin/kiro-rs".to_string(),
            "/usr/bin/kiro-rs".to_string(),
        ]
    );
}

#[test]
fn bundled_candidates_cover_the_relocatable_layout() {
    assert_eq!(
        bundled_runtime_candidates(&vec!["/res".to_string()]),
        vec![
            "/res/offline/kiro-rs/darwin-aarch64/kiro-rs".to_string(),
            "/res/offline/kiro-rs/kiro-rs".to_string(),
            "/res/kiro-rs".to_string(),
            "/res/resources/offline/kiro-rs/darwin-aarch64/kiro-rs".to_string(),
        ]
    );
}

#[test]
fn resource_bases_come_from_the_reported_directories() {
    let bases = resource_dir_candidates(
        &Some("/app/resources".to_string()),
        &Some("/app/bin".to_string()),
    );
    assert_eq!(
        bases,
        vec![
            "/app/resources".to_string(),
            "/app/bin".to_string(),
            "/app/bin/../Resources".to_string(),
            "/app/bin/resources".to_string(),
        ]
    );
    assert!(resource_dir_candidates(&None, &None).is_empty());
}

#[test]
fn string_normalization_drops_whitespace_only_values() {
    assert_eq!(norm_str("  x  ").as_deref(), Some("x"));
    assert_eq!(norm_str("   "), None);
    assert_eq!(norm_opt(&Some(" y ".to_string())).as_deref(), Some("y"));
    assert_eq!(norm_opt(&None), None);
}

#[test]
fn substring_search_is_character_wise() {
    assert!(str_contains("abcdef", "cde"));
    assert!(str_contains("abcdef", ""));
    assert!(!str_contains("abcdef", "ced"));
    assert!(!str_contains("ab", "abc"));
    assert!(str_contains("状态封禁中", "封禁"));
}
