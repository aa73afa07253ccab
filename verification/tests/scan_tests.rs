use change_shelf::paths::{base_name, join_path};
use change_shelf::scan::{scan, DirListing, FsEntry};

fn entry(name: &str, is_dir: bool, has_git_dir: bool) -> FsEntry {
    FsEntry { name: name.to_string(), is_dir, has_git_dir }
}

#[test]
fn scan_keeps_exactly_the_qualifying_children() {
    let listing = DirListing {
        root_is_dir: true,
        root_has_git_dir: false,
        entries: Some(vec![
            entry("alpha", true, true),
            entry("notes.txt", false, false),
            entry("beta", true, false),
            entry("gamma", true, true),
            entry("stray.git", false, true),
        ]),
    };
    let found = scan(&"/home/me/work".to_string(), &listing);
    assert_eq!(found, vec!["/home/me/work/alpha".to_string(), "/home/me/work/gamma".to_string()]);
}

#[test]
fn scan_of_unreadable_root_is_empty_not_an_error() {
    let listing = DirListing { root_is_dir: false, root_has_git_dir: false, entries: None };
    let found = scan(&"/no/such/dir".to_string(), &listing);
    assert!(found.is_empty());
}

#[test]
fn scan_of_missing_root_reported_as_empty_listing_is_empty() {
    let listing = DirListing { root_is_dir: true, root_has_git_dir: false, entries: None };
    let found = scan(&"/unreadable".to_string(), &listing);
    assert!(found.is_empty());
}

#[test]
fn scan_of_repository_root_yields_the_root_alone() {
    let listing = DirListing {
        root_is_dir: true,
        root_has_git_dir: true,
        entries: Some(vec![entry("vendored", true, true), entry("docs", true, false)]),
    };
    let found = scan(&"/home/me/repo".to_string(), &listing);
    assert_eq!(found, vec!["/home/me/repo".to_string()]);
}

#[test]
fn scan_of_empty_directory_is_empty() {
    let listing = DirListing { root_is_dir: true, root_has_git_dir: false, entries: Some(vec![]) };
    assert!(scan(&"/tmp/empty".to_string(), &listing).is_empty());
}

#[test]
fn base_name_takes_what_follows_the_last_slash() {
    assert_eq!(base_name("/home/me/work/alpha"), "alpha".to_string());
    assert_eq!(base_name("alpha"), "alpha".to_string());
    assert_eq!(base_name("/trailing/"), "".to_string());
    assert_eq!(base_name(""), "".to_string());
}

#[test]
fn join_path_puts_one_separator_between() {
    assert_eq!(join_path("/home/me", "alpha"), "/home/me/alpha".to_string());
    assert_eq!(join_path("", "alpha"), "/alpha".to_string());
}
