use superls::filter::{Entry, EntryKind};
use superls::grep::Pattern;
use superls::traverse::{depth_fits, is_directory_empty_or_filtered, list_directory, Action, Node};

fn file(parent: &str, name: &str) -> Node {
    Node {
        entry: Entry {
            name: name.to_string(),
            path: format!("{}/{}", parent, name),
            kind: EntryKind::File,
        },
        children: Vec::new(),
    }
}

fn dir(parent: &str, name: &str, children: Vec<Node>) -> Node {
    Node {
        entry: Entry {
            name: name.to_string(),
            path: format!("{}/{}", parent, name),
            kind: EntryKind::Dir,
        },
        children,
    }
}

fn root(children: Vec<Node>) -> Node {
    Node {
        entry: Entry { name: "root".to_string(), path: "root".to_string(), kind: EntryKind::Dir },
        children,
    }
}

fn strings(v: &[&str]) -> Vec<String> {
    v.iter().map(|s| s.to_string()).collect()
}

fn show(depth: usize, name: &str, is_dir: bool) -> Action {
    Action::Show { depth, name: name.to_string(), is_dir }
}

/// root/{a.txt, sub/{b.log}}
fn small_tree() -> Node {
    root(vec![file("root", "a.txt"), dir("root", "sub", vec![file("root/sub", "b.log")])])
}

#[test]
fn ignored_extension_prunes_subdirectory() {
    let out = list_directory(&small_tree(), 0, &None, &strings(&["log"]), &Vec::new(), &None);
    assert_eq!(out, vec![show(0, "a.txt", false)]);
}

#[test]
fn only_extensions_gives_same_output() {
    let tree = small_tree();
    let by_deny = list_directory(&tree, 0, &None, &strings(&["log"]), &Vec::new(), &None);
    let by_allow = list_directory(&tree, 0, &Some(strings(&["txt"])), &Vec::new(), &Vec::new(), &None);
    assert_eq!(by_allow, vec![show(0, "a.txt", false)]);
    assert_eq!(by_allow, by_deny);
}

#[test]
fn unfiltered_tree_lists_everything_in_order() {
    let out = list_directory(&small_tree(), 0, &None, &Vec::new(), &Vec::new(), &None);
    assert_eq!(
        out,
        vec![show(0, "a.txt", false), show(0, "sub", true), show(1, "b.log", false)]
    );
}

#[test]
fn directory_without_shown_files_is_invisible() {
    let tree = root(vec![dir("root", "d", vec![dir("root/d", "e", Vec::new())])]);
    let out = list_directory(&tree, 0, &None, &Vec::new(), &Vec::new(), &None);
    assert!(out.is_empty());
    let tree = root(vec![dir("root", "d", vec![dir("root/d", "e", vec![file("root/d/e", "f.rs")])])]);
    let out = list_directory(&tree, 0, &None, &Vec::new(), &Vec::new(), &None);
    assert_eq!(out, vec![show(0, "d", true), show(1, "e", true), show(2, "f.rs", false)]);
    let out = list_directory(&tree, 0, &None, &strings(&["rs"]), &Vec::new(), &None);
    assert!(out.is_empty());
}

#[test]
fn ignored_directory_not_entered() {
    let tree = root(vec![
        dir("root", "target", vec![file("root/target", "x.txt")]),
        file("root", "y.txt"),
    ]);
    let out = list_directory(&tree, 0, &None, &Vec::new(), &strings(&["target"]), &None);
    assert_eq!(out, vec![show(0, "y.txt", false)]);
}

#[test]
fn search_follows_each_shown_file() {
    let pattern = Some(Pattern::new(&"x".to_string()).unwrap());
    let out = list_directory(&small_tree(), 2, &None, &Vec::new(), &Vec::new(), &pattern);
    assert_eq!(
        out,
        vec![
            show(2, "a.txt", false),
            Action::Search { path: "root/a.txt".to_string() },
            show(2, "sub", true),
            show(3, "b.log", false),
            Action::Search { path: "root/sub/b.log".to_string() },
        ]
    );
}

#[test]
fn listing_twice_is_identical() {
    let tree = small_tree();
    let first = list_directory(&tree, 0, &None, &Vec::new(), &Vec::new(), &None);
    let second = list_directory(&tree, 0, &None, &Vec::new(), &Vec::new(), &None);
    assert_eq!(first, second);
}

#[test]
fn file_root_lists_nothing() {
    let out = list_directory(&file(".", "a.txt"), 0, &None, &Vec::new(), &Vec::new(), &None);
    assert!(out.is_empty());
}

#[test]
fn empty_or_filtered_looks_one_level() {
    assert!(is_directory_empty_or_filtered(&Vec::new(), &None, &Vec::new(), &Vec::new()));
    let tree = small_tree();
    assert!(!is_directory_empty_or_filtered(&tree.children, &None, &Vec::new(), &Vec::new()));
    assert!(is_directory_empty_or_filtered(
        &tree.children,
        &None,
        &strings(&["txt"]),
        &strings(&["sub"])
    ));
    // `sub` is kept at the first level even though nothing below it is.
    assert!(!is_directory_empty_or_filtered(&tree.children, &None, &strings(&["txt", "log"]), &Vec::new()));
}

#[test]
fn depth_limit() {
    let tree = small_tree();
    assert!(depth_fits(&tree, 0));
    assert!(depth_fits(&tree, usize::MAX - 2));
    assert!(!depth_fits(&tree, usize::MAX - 1));
    assert!(depth_fits(&file(".", "a"), usize::MAX));
}
