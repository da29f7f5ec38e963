use dir_nuke::{Action, App, Key, Mode, NodeModuleEntry};

fn path(parts: &[&str]) -> Vec<String> {
    parts.iter().map(|s| s.to_string()).collect()
}

fn entry(parts: &[&str], size_bytes: u64) -> NodeModuleEntry {
    NodeModuleEntry { path: path(parts), size_bytes }
}

fn three_entry_app() -> App {
    App::new(vec![entry(&["a"], 30), entry(&["b"], 20), entry(&["c"], 10)])
}

#[test]
fn new_session_starts_listing_at_top() {
    let app = three_entry_app();
    assert_eq!(app.mode, Mode::Listing);
    assert_eq!(app.cursor, 0);
    assert_eq!(app.selected, vec![false, false, false]);
}

#[test]
fn cursor_wraps_at_both_ends() {
    let mut app = three_entry_app();
    app.move_up();
    assert_eq!(app.cursor, 2);
    app.move_down();
    assert_eq!(app.cursor, 0);
    app.move_down();
    assert_eq!(app.cursor, 1);
    app.move_up();
    assert_eq!(app.cursor, 0);
}

#[test]
fn toggle_twice_restores_selection() {
    let mut app = three_entry_app();
    app.handle_key(Key::Down);
    app.select_item();
    let before = app.selected.clone();
    app.toggle_item_selection();
    assert_eq!(app.selected, vec![false, false, false]);
    app.toggle_item_selection();
    assert_eq!(app.selected, before);
}

#[test]
fn mark_and_unmark_are_idempotent() {
    let mut app = three_entry_app();
    app.select_item();
    app.select_item();
    assert_eq!(app.selected, vec![true, false, false]);
    app.unselect_item();
    app.unselect_item();
    assert_eq!(app.selected, vec![false, false, false]);
}

#[test]
fn listing_keys_map_as_documented() {
    let mut app = three_entry_app();
    assert_eq!(app.handle_key(Key::Char('j')), Action::Nothing);
    assert_eq!(app.cursor, 1);
    assert_eq!(app.handle_key(Key::Char('k')), Action::Nothing);
    assert_eq!(app.cursor, 0);
    assert_eq!(app.handle_key(Key::Tab), Action::Nothing);
    assert_eq!(app.cursor, 1);
    assert_eq!(app.handle_key(Key::BackTab), Action::Nothing);
    assert_eq!(app.cursor, 0);
    assert_eq!(app.handle_key(Key::Char('l')), Action::Nothing);
    assert_eq!(app.selected, vec![true, false, false]);
    assert_eq!(app.handle_key(Key::Char('h')), Action::Nothing);
    assert_eq!(app.selected, vec![false, false, false]);
    assert_eq!(app.handle_key(Key::Char(' ')), Action::Nothing);
    assert_eq!(app.selected, vec![true, false, false]);
    assert_eq!(app.handle_key(Key::Char('z')), Action::Nothing);
    assert_eq!(app.selected, vec![true, false, false]);
    assert_eq!(app.mode, Mode::Listing);
    assert_eq!(app.handle_key(Key::Char('q')), Action::Nothing);
    assert_eq!(app.mode, Mode::Exited);
}

#[test]
fn enter_opens_confirm_gate_without_mutation() {
    let mut app = three_entry_app();
    app.handle_key(Key::Char(' '));
    let selected_before = app.selected.clone();
    let act = app.handle_key(Key::Enter);
    assert_eq!(act, Action::Nothing);
    assert_eq!(app.mode, Mode::ConfirmDelete);
    assert_eq!(app.selected, selected_before);
}

#[test]
fn affirm_requests_delete_and_exits() {
    let mut app = three_entry_app();
    app.handle_key(Key::Char(' '));
    app.handle_key(Key::Enter);
    let act = app.handle_key(Key::Char('y'));
    assert_eq!(act, Action::DeleteSelected);
    assert_eq!(app.mode, Mode::Exited);
}

#[test]
fn deny_returns_to_listing_with_selection_kept() {
    let mut app = three_entry_app();
    app.handle_key(Key::Char(' '));
    app.handle_key(Key::Enter);
    let act = app.handle_key(Key::Char('n'));
    assert_eq!(act, Action::Nothing);
    assert_eq!(app.mode, Mode::Listing);
    assert_eq!(app.selected, vec![true, false, false]);

    app.handle_key(Key::Enter);
    let act2 = app.handle_key(Key::Esc);
    assert_eq!(act2, Action::Nothing);
    assert_eq!(app.mode, Mode::Listing);
    assert_eq!(app.selected, vec![true, false, false]);
}

#[test]
fn no_affirm_key_never_requests_delete() {
    // a long arbitrary session without 'y': no step may request a deletion
    let keys = vec![
        Key::Char(' '),
        Key::Down,
        Key::Char('l'),
        Key::Enter,
        Key::Char('x'),
        Key::Esc,
        Key::Up,
        Key::Enter,
        Key::Char('n'),
        Key::Char(' '),
        Key::Enter,
        Key::Enter,
        Key::Tab,
    ];
    let mut app = three_entry_app();
    for k in keys {
        assert_eq!(app.handle_key(k), Action::Nothing);
    }
}

#[test]
fn affirm_key_in_listing_does_not_delete() {
    let mut app = three_entry_app();
    assert_eq!(app.handle_key(Key::Char('y')), Action::Nothing);
    assert_eq!(app.mode, Mode::Listing);
}

#[test]
fn empty_catalog_ignores_movement_and_selection() {
    let mut app = App::new(Vec::new());
    app.handle_key(Key::Down);
    app.handle_key(Key::Up);
    app.handle_key(Key::Char(' '));
    app.handle_key(Key::Char('l'));
    assert_eq!(app.cursor, 0);
    assert!(app.selected.is_empty());
    assert_eq!(app.mode, Mode::Listing);
}

#[test]
fn selected_paths_lists_only_marked_entries_in_order() {
    let mut app = three_entry_app();
    app.handle_key(Key::Char(' '));
    app.handle_key(Key::Down);
    app.handle_key(Key::Down);
    app.handle_key(Key::Char(' '));
    let work = app.selected_paths();
    assert_eq!(work, vec![path(&["a"]), path(&["c"])]);
}

#[test]
fn reload_clears_selection_and_cursor() {
    let mut app = three_entry_app();
    app.handle_key(Key::Char(' '));
    app.handle_key(Key::Down);
    app.reload_dirs(vec![entry(&["z"], 7)]);
    assert_eq!(app.cursor, 0);
    assert_eq!(app.selected, vec![false]);
    assert_eq!(app.entries.len(), 1);
    assert_eq!(app.entries[0].path, path(&["z"]));
}

#[test]
fn exited_session_ignores_input() {
    let mut app = three_entry_app();
    app.handle_key(Key::Esc);
    assert_eq!(app.mode, Mode::Exited);
    assert_eq!(app.handle_key(Key::Char('y')), Action::Nothing);
    assert_eq!(app.handle_key(Key::Enter), Action::Nothing);
    assert_eq!(app.mode, Mode::Exited);
}
