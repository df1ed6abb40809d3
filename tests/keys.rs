use rust_kanban::key::{InputCode, Key, KeyInput};

fn press(code: InputCode, shift: bool, control: bool, alt: bool) -> KeyInput {
    KeyInput { code, shift, control, alt, pressed: true }
}

#[test]
fn function_keys() {
    assert_eq!(Key::from_f(0), Key::F0);
    assert_eq!(Key::from_f(7), Key::F7);
    assert_eq!(Key::from_f(12), Key::F12);
}

#[test]
fn digits() {
    assert_eq!(Key::Char('0').to_digit(), 0);
    assert_eq!(Key::Char('7').to_digit(), 7);
    assert_eq!(Key::Char('9').to_digit(), 9);
}

#[test]
fn shifted_arrows() {
    assert_eq!(Key::from_input(press(InputCode::Up, true, false, false)), Key::ShiftUp);
    assert_eq!(Key::from_input(press(InputCode::Left, true, false, false)), Key::ShiftLeft);
    assert_eq!(Key::from_input(press(InputCode::Down, false, false, false)), Key::Down);
    assert_eq!(Key::from_input(press(InputCode::Right, false, true, false)), Key::Right);
}

#[test]
fn modified_characters() {
    assert_eq!(Key::from_input(press(InputCode::Char('c'), false, true, false)), Key::Ctrl('c'));
    assert_eq!(Key::from_input(press(InputCode::Char('x'), false, false, true)), Key::Alt('x'));
    assert_eq!(Key::from_input(press(InputCode::Char('x'), false, true, true)), Key::Ctrl('x'));
    assert_eq!(Key::from_input(press(InputCode::Char('Q'), true, false, false)), Key::Char('Q'));
}

#[test]
fn named_inputs() {
    assert_eq!(Key::from_input(press(InputCode::Enter, false, false, false)), Key::Enter);
    assert_eq!(Key::from_input(press(InputCode::Insert, false, false, false)), Key::Ins);
    assert_eq!(Key::from_input(press(InputCode::BackTab, true, false, false)), Key::BackTab);
    assert_eq!(Key::from_input(press(InputCode::F(5), false, false, false)), Key::F5);
}

#[test]
fn unmatched_inputs_are_unknown() {
    assert_eq!(Key::from_input(press(InputCode::F(13), false, false, false)), Key::Unknown);
    assert_eq!(Key::from_input(press(InputCode::Other, false, false, false)), Key::Unknown);
    let release = KeyInput { code: InputCode::Enter, shift: false, control: false, alt: false, pressed: false };
    assert_eq!(Key::from_input(release), Key::Unknown);
}

#[test]
fn key_names() {
    assert_eq!(Key::from_name("PageDown"), Key::PageDown);
    assert_eq!(Key::from_name("F10"), Key::F10);
    assert_eq!(Key::from_name("ShiftRight"), Key::ShiftRight);
    assert_eq!(Key::from_name("enter"), Key::Unknown);
}

#[test]
fn key_labels() {
    assert_eq!(Key::Ctrl('c').to_display_string(), "<Ctrl+c>");
    assert_eq!(Key::Alt(' ').to_display_string(), "<Alt+Space>");
    assert_eq!(Key::Char('q').to_display_string(), "<q>");
    assert_eq!(Key::Char(' ').to_display_string(), "< >");
    assert_eq!(Key::Space.to_display_string(), "<Space>");
    assert_eq!(Key::Ctrl(' ').to_display_string(), "<Ctrl+Space>");
    assert_eq!(Key::Alt('x').to_display_string(), "<Alt+x>");
    assert_eq!(Key::BackTab.to_display_string(), "<Shift+Tab>");
    assert_eq!(Key::PageUp.to_display_string(), "<PageUp>");
    assert_eq!(Key::F3.to_display_string(), "<F3>");
    assert_eq!(Key::Unknown.to_display_string(), "<Unknown>");
}

fn object(entries: &[(&str, serde_json::Value)]) -> serde_json::Map<String, serde_json::Value> {
    let mut m = serde_json::Map::new();
    for (k, v) in entries {
        m.insert(k.to_string(), v.clone());
    }
    m
}

#[test]
fn stored_key_objects() {
    let ch = object(&[("Char", serde_json::Value::String("x".to_string()))]);
    assert_eq!(Key::from_json_map(&ch), Key::Char('x'));
    let alt = object(&[("Alt", serde_json::Value::String("b".to_string()))]);
    assert_eq!(Key::from_json_map(&alt), Key::Alt('b'));
    let ctrl = object(&[("Ctrl", serde_json::Value::String("z".to_string()))]);
    assert_eq!(Key::from_json_map(&ctrl), Key::Ctrl('z'));
}

#[test]
fn malformed_key_objects_are_unknown() {
    let empty = object(&[]);
    assert_eq!(Key::from_json_map(&empty), Key::Unknown);
    let number = object(&[("Char", serde_json::Value::Bool(true))]);
    assert_eq!(Key::from_json_map(&number), Key::Unknown);
    let blank = object(&[("Ctrl", serde_json::Value::String(String::new()))]);
    assert_eq!(Key::from_json_map(&blank), Key::Unknown);
    let other = object(&[("Shift", serde_json::Value::String("a".to_string()))]);
    assert_eq!(Key::from_json_map(&other), Key::Unknown);
}

#[test]
fn stored_names_round_trip() {
    for k in [Key::Enter, Key::Space, Key::F0, Key::F12, Key::BackTab, Key::ShiftDown, Key::PageUp] {
        let name = k.to_name().unwrap();
        assert_eq!(Key::from_name(name), k);
    }
    assert_eq!(Key::Char('a').to_name(), None);
    assert_eq!(Key::Unknown.to_name(), None);
}

#[test]
fn key_labels_are_distinct() {
    let keys = [
        Key::Enter, Key::Tab, Key::Backspace, Key::Esc, Key::Space, Key::Left, Key::Right,
        Key::Up, Key::Down, Key::Ins, Key::Delete, Key::Home, Key::End, Key::PageUp,
        Key::PageDown, Key::F0, Key::F12, Key::Char(' '), Key::Char('a'), Key::Ctrl(' '),
        Key::Ctrl('a'), Key::Alt(' '), Key::Alt('a'), Key::BackTab, Key::ShiftUp,
        Key::ShiftDown, Key::ShiftLeft, Key::ShiftRight,
    ];
    for (i, a) in keys.iter().enumerate() {
        for b in &keys[i + 1..] {
            assert_ne!(a.to_display_string(), b.to_display_string());
        }
    }
}
