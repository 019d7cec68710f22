use brian_desktop::companion::{
    device_or_local, has_parent_component, is_hidden_name, is_within_root, normalize_http_url, portable_path,
    sort_ide_entries, str_le, validate_path_under_root, BrowserState, IdeFileEntry, IdeState,
};

fn parts(p: &str) -> Vec<String> {
    p.split('/').map(|s| s.to_string()).collect()
}

fn entry(path: &str, is_dir: bool) -> IdeFileEntry {
    IdeFileEntry { name: path.rsplit('/').next().unwrap().to_string(), path: path.to_string(), is_dir }
}

#[test]
fn browser_urls_are_normalized() {
    assert_eq!(normalize_http_url("  example.com/a  ").unwrap(), "https://example.com/a");
    assert_eq!(normalize_http_url("http://Example.com").unwrap(), "http://example.com/");
    assert_eq!(normalize_http_url("https://x.org/p?q=1").unwrap(), "https://x.org/p?q=1");
    assert_eq!(normalize_http_url("   ").unwrap_err(), "URL is required");
    assert_eq!(normalize_http_url("").unwrap_err(), "URL is required");
    assert!(normalize_http_url("https://").is_err());
}

#[test]
fn browser_and_ide_defaults() {
    let b = BrowserState::default();
    assert_eq!(b.url, "https://example.com");
    assert_eq!(b.history, vec!["https://example.com".to_string()]);
    assert_eq!(b.history_index, 0);
    let i = IdeState::default();
    assert!(i.root_path.is_none() && i.open_file.is_none());
}

#[test]
fn ide_entries_sort_folders_first_then_by_path() {
    let sorted = sort_ide_entries(vec![
        entry("b.txt", false),
        entry("src", true),
        entry("a.txt", false),
        entry("docs", true),
        entry("src/main.rs", false),
        entry("B.txt", false),
    ]);
    let paths: Vec<&str> = sorted.iter().map(|e| e.path.as_str()).collect();
    assert_eq!(paths, vec!["docs", "src", "B.txt", "a.txt", "b.txt", "src/main.rs"]);
}

#[test]
fn string_order_is_that_of_str() {
    assert!(str_le("a", "b"));
    assert!(str_le("a", "ab"));
    assert!(!str_le("ab", "a"));
    assert!(str_le("", ""));
    assert!(str_le("Z", "a"));
    assert!(!str_le("é", "z"));
}

#[test]
fn hidden_names_and_portable_paths() {
    assert!(is_hidden_name(".git"));
    assert!(!is_hidden_name("git"));
    assert!(!is_hidden_name(""));
    assert_eq!(portable_path("src\\lib\\a.rs"), "src/lib/a.rs");
    assert_eq!(portable_path("plain"), "plain");
}

#[test]
fn paths_must_stay_under_the_root() {
    assert!(is_within_root(&parts("/home/me/proj"), &parts("/home/me/proj/src/a.rs")));
    assert!(is_within_root(&parts("/home/me/proj"), &parts("/home/me/proj")));
    assert!(!is_within_root(&parts("/home/me/proj"), &parts("/home/me/project/a.rs")));
    assert!(!is_within_root(&parts("/home/me/proj"), &parts("/home/me")));
    assert_eq!(validate_path_under_root(&parts("/r"), parts("/r/a")).unwrap(), parts("/r/a"));
    assert_eq!(
        validate_path_under_root(&parts("/r"), parts("/etc/passwd")).unwrap_err(),
        "Path is outside the granted folder"
    );
    assert!(has_parent_component(&parts("a/../b")));
    assert!(!has_parent_component(&parts("a/..b/c")));
}

#[test]
fn writes_are_attributed_to_a_device() {
    assert_eq!(device_or_local(Some("cloud-1".to_string())), "cloud-1");
    assert_eq!(device_or_local(None), "local-device");
}
