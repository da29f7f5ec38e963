use dir_nuke::{display_path, human_label, render_line, render_lines, App, Key, NodeModuleEntry};

fn path(parts: &[&str]) -> Vec<String> {
    parts.iter().map(|s| s.to_string()).collect()
}

fn entry(parts: &[&str], size_bytes: u64) -> NodeModuleEntry {
    NodeModuleEntry { path: path(parts), size_bytes }
}

#[test]
fn display_path_joins_components() {
    assert_eq!(display_path(&path(&["a", "b", "node_modules"])), "a/b/node_modules");
    assert_eq!(display_path(&path(&["x"])), "x");
    assert_eq!(display_path(&Vec::new()), "");
}

#[test]
fn human_label_uses_decimal_sizes() {
    let e = entry(&["a", "node_modules"], 10_000_000);
    assert_eq!(human_label(&e), "10 MB - a/node_modules");
    let small = entry(&["b"], 500);
    assert_eq!(human_label(&small), "500 B - b");
}

#[test]
fn human_label_matches_humansize() {
    for size in [0u64, 999, 1000, 1536, 123_456_789, u64::MAX] {
        let e = entry(&["p", "node_modules"], size);
        let expected =
            format!("{} - p/node_modules", humansize::format_size(size, humansize::DECIMAL));
        assert_eq!(human_label(&e), expected);
    }
}

#[test]
fn render_line_carries_selection_marker() {
    let e = entry(&["a"], 500);
    assert_eq!(render_line(&e, true), "[x] 500 B - a");
    assert_eq!(render_line(&e, false), "[ ] 500 B - a");
}

#[test]
fn render_lines_follow_catalog_order_and_flags() {
    let mut app = App::new(vec![entry(&["big"], 2_000_000), entry(&["small"], 500)]);
    app.handle_key(Key::Char(' '));
    let lines = render_lines(&app);
    assert_eq!(lines, vec!["[x] 2 MB - big".to_string(), "[ ] 500 B - small".to_string()]);
}
