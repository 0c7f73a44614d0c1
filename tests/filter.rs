use superls::filter::{
    contains_name, extension_of, is_desired_extension, is_ignored_dir, is_ignored_extension,
    should_skip, Entry, EntryKind,
};

fn entry(name: &str, kind: EntryKind) -> Entry {
    Entry { name: name.to_string(), path: format!("root/{}", name), kind }
}

fn strings(v: &[&str]) -> Vec<String> {
    v.iter().map(|s| s.to_string()).collect()
}

#[test]
fn extension_after_last_dot() {
    assert_eq!(extension_of(&"a.txt".to_string()), Some("txt".to_string()));
    assert_eq!(extension_of(&"archive.tar.gz".to_string()), Some("gz".to_string()));
    assert_eq!(extension_of(&"a.".to_string()), Some(String::new()));
}

#[test]
fn extension_absent() {
    assert_eq!(extension_of(&"Makefile".to_string()), None);
    assert_eq!(extension_of(&".bashrc".to_string()), None);
    assert_eq!(extension_of(&"..".to_string()), None);
    assert_eq!(extension_of(&String::new()), None);
}

#[test]
fn names_compare_case_sensitively() {
    let set = strings(&["txt", "md"]);
    assert!(contains_name(&set, &"txt".to_string()));
    assert!(!contains_name(&set, &"TXT".to_string()));
    assert!(!contains_name(&Vec::new(), &"txt".to_string()));
}

#[test]
fn ignored_dir_needs_directory() {
    let dirs = strings(&["target", ".git"]);
    assert!(is_ignored_dir(&entry("target", EntryKind::Dir), &dirs));
    assert!(!is_ignored_dir(&entry("target", EntryKind::File), &dirs));
    assert!(!is_ignored_dir(&entry("src", EntryKind::Dir), &dirs));
}

#[test]
fn ignored_extension_needs_file() {
    let exts = strings(&["log"]);
    assert!(is_ignored_extension(&entry("b.log", EntryKind::File), &exts));
    assert!(!is_ignored_extension(&entry("logs.log", EntryKind::Dir), &exts));
    assert!(!is_ignored_extension(&entry("log", EntryKind::File), &exts));
    assert!(!is_ignored_extension(&entry("b.LOG", EntryKind::File), &exts));
}

#[test]
fn desired_extension_rules() {
    let only = Some(strings(&["txt"]));
    assert!(is_desired_extension(&entry("a.txt", EntryKind::File), &only));
    assert!(!is_desired_extension(&entry("b.log", EntryKind::File), &only));
    assert!(!is_desired_extension(&entry("README", EntryKind::File), &only));
    assert!(is_desired_extension(&entry("sub", EntryKind::Dir), &only));
    assert!(is_desired_extension(&entry("link", EntryKind::Other), &only));
    assert!(is_desired_extension(&entry("b.log", EntryKind::File), &None));
}

#[test]
fn undesired_file_skipped_regardless_of_deny_list() {
    let only = Some(strings(&["txt"]));
    let e = entry("b.log", EntryKind::File);
    assert!(should_skip(&e, &only, &Vec::new(), &Vec::new()));
    assert!(should_skip(&e, &only, &strings(&["md"]), &Vec::new()));
}

#[test]
fn deny_overrides_allow() {
    let both = strings(&["txt"]);
    let e = entry("a.txt", EntryKind::File);
    assert!(!should_skip(&e, &Some(both.clone()), &Vec::new(), &Vec::new()));
    assert!(should_skip(&e, &Some(both.clone()), &both, &Vec::new()));
}

#[test]
fn ignored_directory_skipped() {
    let e = entry("target", EntryKind::Dir);
    assert!(should_skip(&e, &None, &Vec::new(), &strings(&["target"])));
    assert!(!should_skip(&e, &None, &strings(&["target"]), &Vec::new()));
}
