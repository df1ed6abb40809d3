use rust_kanban::action::Action;
use rust_kanban::key::Key;
use rust_kanban::keybindings::{dedup_key_list, KeyBindings};

#[test]
fn edit_drops_repeated_keys() {
    let mut kb = KeyBindings::default();
    kb.edit_keybinding("quit", vec![Key::Ctrl('c'), Key::Char('q'), Key::Ctrl('c')]);
    assert_eq!(kb.get_keybinding("quit"), Some(&vec![Key::Ctrl('c'), Key::Char('q')]));
}

#[test]
fn conflict_goes_to_higher_priority() {
    let mut kb = KeyBindings::default();
    kb.edit_keybinding("quit", vec![Key::Char('x')]);
    kb.edit_keybinding("undo", vec![Key::Char('x')]);
    assert_eq!(kb.key_to_action(Key::Char('x')), Some(Action::Quit));
}

#[test]
fn default_resolution() {
    let kb = KeyBindings::default();
    assert_eq!(kb.key_to_action(Key::Char('q')), Some(Action::Quit));
    assert_eq!(kb.key_to_action(Key::Ctrl('c')), Some(Action::Quit));
    assert_eq!(kb.key_to_action(Key::Tab), Some(Action::NextFocus));
    assert_eq!(kb.key_to_action(Key::Char('D')), Some(Action::DeleteBoard));
    assert_eq!(kb.key_to_action(Key::Ctrl('y')), Some(Action::Redo));
    assert_eq!(kb.key_to_action(Key::Char('w')), None);
}

#[test]
fn resolve_is_repeatable() {
    let kb = KeyBindings::default();
    for k in [Key::Char('q'), Key::Up, Key::Char('w'), Key::Unknown] {
        assert_eq!(kb.key_to_action(k), kb.key_to_action(k));
    }
}

#[test]
fn unknown_names_change_nothing() {
    let mut kb = KeyBindings::default();
    kb.edit_keybinding("fly", vec![Key::Char('f')]);
    assert_eq!(kb.key_to_action(Key::Char('f')), None);
    assert_eq!(kb.get_keybinding("fly"), None);
    assert_eq!(kb.str_to_action("fly"), None);
    kb.reset_keybinding("fly");
    assert_eq!(kb.get_keybinding("quit"), Some(&vec![Key::Ctrl('c'), Key::Char('q')]));
}

#[test]
fn names_to_actions() {
    let kb = KeyBindings::default();
    assert_eq!(kb.str_to_action("prev_focus"), Some(Action::PrvFocus));
    assert_eq!(kb.str_to_action("change_card_status_to_stale"), Some(Action::ChangeCardStatusToStale));
    assert_eq!(Action::Redo.name(), "redo");
    assert_eq!(Action::from_name("reset_ui"), Some(Action::ResetUI));
    assert_eq!(Action::Undo.index(), 23);
    assert_eq!(Action::from_index(0), Action::Quit);
}

#[test]
fn reset_restores_factory_keys() {
    let mut kb = KeyBindings::default();
    kb.edit_keybinding("up", vec![Key::Char('k')]);
    kb.edit_keybinding("down", vec![Key::Char('j')]);
    assert_eq!(kb.key_to_action(Key::Char('k')), Some(Action::Up));
    kb.reset_keybinding("up");
    assert_eq!(kb.get_keybinding("up"), Some(&vec![Key::Up]));
    assert_eq!(kb.get_keybinding("down"), Some(&vec![Key::Char('j')]));
    kb.reset_all();
    assert_eq!(kb.get_keybinding("down"), Some(&vec![Key::Down]));
}

#[test]
fn iteration_follows_priority_order() {
    let kb = KeyBindings::default();
    let entries = kb.iter();
    assert_eq!(entries.len(), 25);
    assert_eq!(entries[0], ("quit", vec![Key::Ctrl('c'), Key::Char('q')]));
    assert_eq!(entries[3], ("open_config_menu", vec![Key::Char('c')]));
    assert_eq!(entries[24], ("redo", vec![Key::Ctrl('y')]));
}

#[test]
fn display_rows() {
    let kb = KeyBindings::default();
    let rows = kb.to_display_rows();
    assert_eq!(rows.len(), 25);
    assert_eq!(rows[0], ("quit".to_string(), "<Ctrl+c> <q> ".to_string()));
    assert_eq!(rows[2], ("prev_focus".to_string(), "<Shift+Tab> ".to_string()));
}

#[test]
fn dedup_keeps_first_occurrences() {
    let keys = vec![Key::Char('a'), Key::Tab, Key::Char('a'), Key::Up, Key::Tab];
    assert_eq!(dedup_key_list(keys), vec![Key::Char('a'), Key::Tab, Key::Up]);
    assert_eq!(dedup_key_list(Vec::new()), Vec::<Key>::new());
}

#[test]
fn edits_chain_and_clone_is_independent() {
    let mut kb = KeyBindings::default();
    kb.edit_keybinding("left", vec![Key::Char('h')])
        .edit_keybinding("right", vec![Key::Char('l')]);
    let copy = kb.clone();
    kb.reset_all();
    assert_eq!(copy.get_keybinding("left"), Some(&vec![Key::Char('h')]));
    assert_eq!(copy.get_keybinding("right"), Some(&vec![Key::Char('l')]));
    assert_eq!(kb.get_keybinding("left"), Some(&vec![Key::Left]));
}
