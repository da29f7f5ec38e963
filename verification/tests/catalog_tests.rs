use dir_nuke::{build_entries, collect_entries, sort_entries_desc, App, DirTree, NodeModuleEntry};

fn dir(name: &str, files: &[u64], subdirs: Vec<DirTree>) -> DirTree {
    DirTree { name: name.to_string(), files: files.to_vec(), subdirs }
}

fn path(parts: &[&str]) -> Vec<String> {
    parts.iter().map(|s| s.to_string()).collect()
}

fn target() -> String {
    "node_modules".to_string()
}

fn entry(parts: &[&str], size_bytes: u64) -> NodeModuleEntry {
    NodeModuleEntry { path: path(parts), size_bytes }
}

#[test]
fn build_orders_largest_first() {
    // a/node_modules holds 10 MB, b/node_modules holds 1 MB: a comes first
    let root = dir(
        "root",
        &[],
        vec![
            dir("b", &[], vec![dir("node_modules", &[1_000_000], vec![])]),
            dir("a", &[], vec![dir("node_modules", &[10_000_000], vec![])]),
        ],
    );
    let entries = build_entries(&root, &Vec::new(), &target());
    assert_eq!(entries.len(), 2);
    assert_eq!(entries[0].path, path(&["root", "a", "node_modules"]));
    assert_eq!(entries[0].size_bytes, 10_000_000);
    assert_eq!(entries[1].path, path(&["root", "b", "node_modules"]));
    assert_eq!(entries[1].size_bytes, 1_000_000);
}

#[test]
fn build_sizes_whole_match_subtree() {
    // the matched directory's size covers everything under it, nested matches included
    let root = dir(
        "root",
        &[],
        vec![dir(
            "x",
            &[],
            vec![dir(
                "node_modules",
                &[5],
                vec![dir("sub", &[2], vec![dir("node_modules", &[7], vec![])])],
            )],
        )],
    );
    let entries = build_entries(&root, &Vec::new(), &target());
    assert_eq!(entries.len(), 1);
    assert_eq!(entries[0].path, path(&["root", "x", "node_modules"]));
    assert_eq!(entries[0].size_bytes, 14);
}

#[test]
fn build_on_empty_tree_is_empty() {
    let root = dir("root", &[3], vec![]);
    let entries = build_entries(&root, &Vec::new(), &target());
    assert!(entries.is_empty());
}

#[test]
fn collect_keeps_traversal_order() {
    let root = dir(
        "root",
        &[],
        vec![
            dir("b", &[], vec![dir("node_modules", &[1], vec![])]),
            dir("a", &[], vec![dir("node_modules", &[2], vec![])]),
        ],
    );
    let entries = collect_entries(&root, &Vec::new(), &target());
    assert_eq!(entries.len(), 2);
    assert_eq!(entries[0].path, path(&["root", "b", "node_modules"]));
    assert_eq!(entries[1].path, path(&["root", "a", "node_modules"]));
}

#[test]
fn sort_is_non_increasing_and_keeps_entries() {
    let mut v = vec![entry(&["a"], 1), entry(&["b"], 5), entry(&["c"], 3), entry(&["d"], 5)];
    sort_entries_desc(&mut v);
    let sizes: Vec<u64> = v.iter().map(|e| e.size_bytes).collect();
    assert_eq!(sizes, vec![5, 5, 3, 1]);
    let mut names: Vec<String> = v.iter().map(|e| e.path[0].clone()).collect();
    names.sort();
    assert_eq!(names, vec!["a", "b", "c", "d"]);
}

#[test]
fn selection_matches_entries_after_build() {
    let root = dir(
        "root",
        &[],
        vec![
            dir("a", &[], vec![dir("node_modules", &[10], vec![])]),
            dir("b", &[], vec![dir("node_modules", &[1], vec![])]),
        ],
    );
    let entries = build_entries(&root, &Vec::new(), &target());
    let app = App::new(entries);
    assert_eq!(app.selected.len(), app.entries.len());
    assert_eq!(app.selected.len(), 2);
    assert!(app.selected.iter().all(|s| !s));
}
