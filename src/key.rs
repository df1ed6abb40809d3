use vstd::prelude::*;

use crate::text::str_equal;

verus! {

/// A logical key: a named key, a character with or without a modifier, or
/// `Unknown` for input that is none of these.
#[derive(Clone, Copy, PartialEq, Eq, Structural, Hash, Debug)]
pub enum Key {
    Enter,
    Tab,
    Backspace,
    Esc,
    Space,
    Left,
    Right,
    Up,
    Down,
    Ins,
    Delete,
    Home,
    End,
    PageUp,
    PageDown,
    F0,
    F1,
    F2,
    F3,
    F4,
    F5,
    F6,
    F7,
    F8,
    F9,
    F10,
    F11,
    F12,
    Char(char),
    Ctrl(char),
    Alt(char),
    BackTab,
    ShiftUp,
    ShiftDown,
    ShiftLeft,
    ShiftRight,
    Unknown,
}

/// The code of a raw key event, as the terminal reports it.
#[derive(Clone, Copy, PartialEq, Eq, Structural, Hash, Debug)]
pub enum InputCode {
    Backspace,
    Enter,
    Left,
    Right,
    Up,
    Down,
    Home,
    End,
    PageUp,
    PageDown,
    Tab,
    BackTab,
    Delete,
    Insert,
    F(u8),
    Char(char),
    Esc,
    Other,
}

/// A raw key event: its code, the modifiers held, and whether it is a press
/// (as opposed to a release or a repeat).
#[derive(Clone, Copy, PartialEq, Eq, Structural, Hash, Debug)]
pub struct KeyInput {
    pub code: InputCode,
    pub shift: bool,
    pub control: bool,
    pub alt: bool,
    pub pressed: bool,
}

/// The function key numbered `n`, for `n` from 0 to 12.
pub open spec fn function_key(n: u8) -> Key
    recommends
        n <= 12,
{
    match n {
        0 => Key::F0,
        1 => Key::F1,
        2 => Key::F2,
        3 => Key::F3,
        4 => Key::F4,
        5 => Key::F5,
        6 => Key::F6,
        7 => Key::F7,
        8 => Key::F8,
        9 => Key::F9,
        10 => Key::F10,
        11 => Key::F11,
        12 => Key::F12,
        _ => Key::Unknown,
    }
}

/// The logical key that a raw event stands for.
pub open spec fn normalized(e: KeyInput) -> Key {
    if !e.pressed {
        Key::Unknown
    } else {
        match e.code {
            InputCode::Esc => Key::Esc,
            InputCode::Backspace => Key::Backspace,
            InputCode::Left => if e.shift { Key::ShiftLeft } else { Key::Left },
            InputCode::Right => if e.shift { Key::ShiftRight } else { Key::Right },
            InputCode::Up => if e.shift { Key::ShiftUp } else { Key::Up },
            InputCode::Down => if e.shift { Key::ShiftDown } else { Key::Down },
            InputCode::Home => Key::Home,
            InputCode::End => Key::End,
            InputCode::PageUp => Key::PageUp,
            InputCode::PageDown => Key::PageDown,
            InputCode::Delete => Key::Delete,
            InputCode::Insert => Key::Ins,
            InputCode::F(n) => if n <= 12 { function_key(n) } else { Key::Unknown },
            InputCode::Enter => Key::Enter,
            InputCode::BackTab => Key::BackTab,
            InputCode::Tab => Key::Tab,
            InputCode::Char(c) => if e.control {
                Key::Ctrl(c)
            } else if e.alt {
                Key::Alt(c)
            } else {
                Key::Char(c)
            },
            InputCode::Other => Key::Unknown,
        }
    }
}

/// The short name under which a key without a character is stored.
pub open spec fn key_name(k: Key) -> Option<Seq<char>> {
    match k {
        Key::Enter => Some("Enter"@),
        Key::Tab => Some("Tab"@),
        Key::Backspace => Some("Backspace"@),
        Key::Esc => Some("Esc"@),
        Key::Space => Some("Space"@),
        Key::Left => Some("Left"@),
        Key::Right => Some("Right"@),
        Key::Up => Some("Up"@),
        Key::Down => Some("Down"@),
        Key::Ins => Some("Ins"@),
        Key::Delete => Some("Delete"@),
        Key::Home => Some("Home"@),
        Key::End => Some("End"@),
        Key::PageUp => Some("PageUp"@),
        Key::PageDown => Some("PageDown"@),
        Key::F0 => Some("F0"@),
        Key::F1 => Some("F1"@),
        Key::F2 => Some("F2"@),
        Key::F3 => Some("F3"@),
        Key::F4 => Some("F4"@),
        Key::F5 => Some("F5"@),
        Key::F6 => Some("F6"@),
        Key::F7 => Some("F7"@),
        Key::F8 => Some("F8"@),
        Key::F9 => Some("F9"@),
        Key::F10 => Some("F10"@),
        Key::F11 => Some("F11"@),
        Key::F12 => Some("F12"@),
        Key::BackTab => Some("BackTab"@),
        Key::ShiftUp => Some("ShiftUp"@),
        Key::ShiftDown => Some("ShiftDown"@),
        Key::ShiftLeft => Some("ShiftLeft"@),
        Key::ShiftRight => Some("ShiftRight"@),
        _ => None,
    }
}

/// The bracketed label of a key, as shown in help and settings screens.
pub open spec fn key_label(k: Key) -> Seq<char> {
    match k {
        Key::Alt(c) => if c == ' ' {
            "<Alt+Space>"@
        } else {
            seq!['<', 'A', 'l', 't', '+', c, '>']
        },
        Key::Ctrl(c) => if c == ' ' {
            "<Ctrl+Space>"@
        } else {
            seq!['<', 'C', 't', 'r', 'l', '+', c, '>']
        },
        Key::Char(c) => seq!['<', c, '>'],
        Key::Enter => "<Enter>"@,
        Key::Tab => "<Tab>"@,
        Key::Backspace => "<Backspace>"@,
        Key::Esc => "<Esc>"@,
        Key::Space => "<Space>"@,
        Key::Left => "<Left>"@,
        Key::Right => "<Right>"@,
        Key::Up => "<Up>"@,
        Key::Down => "<Down>"@,
        Key::Ins => "<Ins>"@,
        Key::Delete => "<Delete>"@,
        Key::Home => "<Home>"@,
        Key::End => "<End>"@,
        Key::PageUp => "<PageUp>"@,
        Key::PageDown => "<PageDown>"@,
        Key::F0 => "<F0>"@,
        Key::F1 => "<F1>"@,
        Key::F2 => "<F2>"@,
        Key::F3 => "<F3>"@,
        Key::F4 => "<F4>"@,
        Key::F5 => "<F5>"@,
        Key::F6 => "<F6>"@,
        Key::F7 => "<F7>"@,
        Key::F8 => "<F8>"@,
        Key::F9 => "<F9>"@,
        Key::F10 => "<F10>"@,
        Key::F11 => "<F11>"@,
        Key::F12 => "<F12>"@,
        Key::BackTab => "<Shift+Tab>"@,
        Key::ShiftUp => "<Shift+Up>"@,
        Key::ShiftDown => "<Shift+Down>"@,
        Key::ShiftLeft => "<Shift+Left>"@,
        Key::ShiftRight => "<Shift+Right>"@,
        Key::Unknown => "<Unknown>"@,
    }
}

/// The first character of a stored text, if it has one.
pub open spec fn first_char(t: Option<Seq<char>>) -> Option<char> {
    match t {
        Some(s) => if s.len() > 0 {
            Some(s[0])
        } else {
            None
        },
        None => None,
    }
}

/// The key that a stored object encodes, read from its entries: the text of
/// the `Char`, `Alt` or `Ctrl` entry, tried in that order. An object that
/// holds none of them, or whose entry holds no text, encodes `Unknown`.
pub open spec fn key_of_entries(e: Map<Seq<char>, Option<Seq<char>>>) -> Key {
    if e.contains_key("Char"@) {
        match first_char(e["Char"@]) {
            Some(c) => Key::Char(c),
            None => Key::Unknown,
        }
    } else if e.contains_key("Alt"@) {
        match first_char(e["Alt"@]) {
            Some(c) => Key::Alt(c),
            None => Key::Unknown,
        }
    } else if e.contains_key("Ctrl"@) {
        match first_char(e["Ctrl"@]) {
            Some(c) => Key::Ctrl(c),
            None => Key::Unknown,
        }
    } else {
        Key::Unknown
    }
}

/// The characters of an optional text.
pub open spec fn text_view(t: Option<String>) -> Option<Seq<char>> {
    match t {
        Some(s) => Some(s@),
        None => None,
    }
}

/// No two keys other than `Unknown` share a label.
pub proof fn lemma_key_label_unique(k: Key)
    requires
        k != Key::Unknown,
    ensures
        forall|o: Key| o != Key::Unknown && key_label(o) == key_label(k) ==> o == k,
{
    reveal_strlit("<Enter>");
    reveal_strlit("<Tab>");
    reveal_strlit("<Backspace>");
    reveal_strlit("<Esc>");
    reveal_strlit("<Space>");
    reveal_strlit("<Left>");
    reveal_strlit("<Right>");
    reveal_strlit("<Up>");
    reveal_strlit("<Down>");
    reveal_strlit("<Ins>");
    reveal_strlit("<Delete>");
    reveal_strlit("<Home>");
    reveal_strlit("<End>");
    reveal_strlit("<PageUp>");
    reveal_strlit("<PageDown>");
    reveal_strlit("<F0>");
    reveal_strlit("<F1>");
    reveal_strlit("<F2>");
    reveal_strlit("<F3>");
    reveal_strlit("<F4>");
    reveal_strlit("<F5>");
    reveal_strlit("<F6>");
    reveal_strlit("<F7>");
    reveal_strlit("<F8>");
    reveal_strlit("<F9>");
    reveal_strlit("<F10>");
    reveal_strlit("<F11>");
    reveal_strlit("<F12>");
    reveal_strlit("<Shift+Tab>");
    reveal_strlit("<Shift+Up>");
    reveal_strlit("<Shift+Down>");
    reveal_strlit("<Shift+Left>");
    reveal_strlit("<Shift+Right>");
    reveal_strlit("<Alt+Space>");
    reveal_strlit("<Ctrl+Space>");
    assert("<Enter>"@.len() == 7);
    assert("<Tab>"@.len() == 5);
    assert("<Backspace>"@.len() == 11);
    assert("<Esc>"@.len() == 5);
    assert("<Space>"@.len() == 7);
    assert("<Left>"@.len() == 6);
    assert("<Right>"@.len() == 7);
    assert("<Up>"@.len() == 4);
    assert("<Down>"@.len() == 6);
    assert("<Ins>"@.len() == 5);
    assert("<Delete>"@.len() == 8);
    assert("<Home>"@.len() == 6);
    assert("<End>"@.len() == 5);
    assert("<PageUp>"@.len() == 8);
    assert("<PageDown>"@.len() == 10);
    assert("<F0>"@.len() == 4);
    assert("<F1>"@.len() == 4);
    assert("<F2>"@.len() == 4);
    assert("<F3>"@.len() == 4);
    assert("<F4>"@.len() == 4);
    assert("<F5>"@.len() == 4);
    assert("<F6>"@.len() == 4);
    assert("<F7>"@.len() == 4);
    assert("<F8>"@.len() == 4);
    assert("<F9>"@.len() == 4);
    assert("<F10>"@.len() == 5);
    assert("<F11>"@.len() == 5);
    assert("<F12>"@.len() == 5);
    assert("<Shift+Tab>"@.len() == 11);
    assert("<Shift+Up>"@.len() == 10);
    assert("<Shift+Down>"@.len() == 12);
    assert("<Shift+Left>"@.len() == 12);
    assert("<Shift+Right>"@.len() == 13);
    assert("<Alt+Space>"@.len() == 11);
    assert("<Ctrl+Space>"@.len() == 12);
    match k {
        Key::Enter => {
            assert("<Enter>"@[1] != "<Space>"@[1]);
            assert("<Enter>"@[1] != "<Right>"@[1]);
            assert("<Enter>"@[1] == 'E');
        },
        Key::Tab => {
            assert("<Tab>"@[1] != "<Esc>"@[1]);
            assert("<Tab>"@[1] != "<Ins>"@[1]);
            assert("<Tab>"@[1] != "<End>"@[1]);
            assert("<Tab>"@[1] != "<F10>"@[1]);
            assert("<Tab>"@[1] != "<F11>"@[1]);
            assert("<Tab>"@[1] != "<F12>"@[1]);
            assert("<Tab>"@[1] == 'T');
        },
        Key::Backspace => {
            assert("<Backspace>"@[1] != "<Shift+Tab>"@[1]);
            assert("<Backspace>"@[1] != "<Alt+Space>"@[1]);
            assert("<Backspace>"@[1] == 'B');
        },
        Key::Esc => {
            assert("<Esc>"@[1] != "<Tab>"@[1]);
            assert("<Esc>"@[1] != "<Ins>"@[1]);
            assert("<Esc>"@[2] != "<End>"@[2]);
            assert("<Esc>"@[1] != "<F10>"@[1]);
            assert("<Esc>"@[1] != "<F11>"@[1]);
            assert("<Esc>"@[1] != "<F12>"@[1]);
            assert("<Esc>"@[1] == 'E');
        },
        Key::Space => {
            assert("<Space>"@[1] != "<Enter>"@[1]);
            assert("<Space>"@[1] != "<Right>"@[1]);
            assert("<Space>"@[1] == 'S');
        },
        Key::Left => {
            assert("<Left>"@[1] != "<Down>"@[1]);
            assert("<Left>"@[1] != "<Home>"@[1]);
            assert("<Left>"@[1] == 'L');
        },
        Key::Right => {
            assert("<Right>"@[1] != "<Enter>"@[1]);
            assert("<Right>"@[1] != "<Space>"@[1]);
            assert("<Right>"@[1] == 'R');
        },
        Key::Up => {
            assert("<Up>"@[1] != "<F0>"@[1]);
            assert("<Up>"@[1] != "<F1>"@[1]);
            assert("<Up>"@[1] != "<F2>"@[1]);
            assert("<Up>"@[1] != "<F3>"@[1]);
            assert("<Up>"@[1] != "<F4>"@[1]);
            assert("<Up>"@[1] != "<F5>"@[1]);
            assert("<Up>"@[1] != "<F6>"@[1]);
            assert("<Up>"@[1] != "<F7>"@[1]);
            assert("<Up>"@[1] != "<F8>"@[1]);
            assert("<Up>"@[1] != "<F9>"@[1]);
            assert("<Up>"@[1] == 'U');
        },
        Key::Down => {
            assert("<Down>"@[1] != "<Left>"@[1]);
            assert("<Down>"@[1] != "<Home>"@[1]);
            assert("<Down>"@[1] == 'D');
        },
        Key::Ins => {
            assert("<Ins>"@[1] != "<Tab>"@[1]);
            assert("<Ins>"@[1] != "<Esc>"@[1]);
            assert("<Ins>"@[1] != "<End>"@[1]);
            assert("<Ins>"@[1] != "<F10>"@[1]);
            assert("<Ins>"@[1] != "<F11>"@[1]);
            assert("<Ins>"@[1] != "<F12>"@[1]);
            assert("<Ins>"@[1] == 'I');
        },
        Key::Delete => {
            assert("<Delete>"@[1] != "<PageUp>"@[1]);
            assert("<Delete>"@[1] == 'D');
        },
        Key::Home => {
            assert("<Home>"@[1] != "<Left>"@[1]);
            assert("<Home>"@[1] != "<Down>"@[1]);
            assert("<Home>"@[1] == 'H');
        },
        Key::End => {
            assert("<End>"@[1] != "<Tab>"@[1]);
            assert("<End>"@[2] != "<Esc>"@[2]);
            assert("<End>"@[1] != "<Ins>"@[1]);
            assert("<End>"@[1] != "<F10>"@[1]);
            assert("<End>"@[1] != "<F11>"@[1]);
            assert("<End>"@[1] != "<F12>"@[1]);
            assert("<End>"@[1] == 'E');
        },
        Key::PageUp => {
            assert("<PageUp>"@[1] != "<Delete>"@[1]);
            assert("<PageUp>"@[1] == 'P');
        },
        Key::PageDown => {
            assert("<PageDown>"@[1] != "<Shift+Up>"@[1]);
            assert("<PageDown>"@[1] == 'P');
        },
        Key::F0 => {
            assert("<F0>"@[1] != "<Up>"@[1]);
            assert("<F0>"@[2] != "<F1>"@[2]);
            assert("<F0>"@[2] != "<F2>"@[2]);
            assert("<F0>"@[2] != "<F3>"@[2]);
            assert("<F0>"@[2] != "<F4>"@[2]);
            assert("<F0>"@[2] != "<F5>"@[2]);
            assert("<F0>"@[2] != "<F6>"@[2]);
            assert("<F0>"@[2] != "<F7>"@[2]);
            assert("<F0>"@[2] != "<F8>"@[2]);
            assert("<F0>"@[2] != "<F9>"@[2]);
            assert("<F0>"@[1] == 'F');
        },
        Key::F1 => {
            assert("<F1>"@[1] != "<Up>"@[1]);
            assert("<F1>"@[2] != "<F0>"@[2]);
            assert("<F1>"@[2] != "<F2>"@[2]);
            assert("<F1>"@[2] != "<F3>"@[2]);
            assert("<F1>"@[2] != "<F4>"@[2]);
            assert("<F1>"@[2] != "<F5>"@[2]);
            assert("<F1>"@[2] != "<F6>"@[2]);
            assert("<F1>"@[2] != "<F7>"@[2]);
            assert("<F1>"@[2] != "<F8>"@[2]);
            assert("<F1>"@[2] != "<F9>"@[2]);
            assert("<F1>"@[1] == 'F');
        },
        Key::F2 => {
            assert("<F2>"@[1] != "<Up>"@[1]);
            assert("<F2>"@[2] != "<F0>"@[2]);
            assert("<F2>"@[2] != "<F1>"@[2]);
            assert("<F2>"@[2] != "<F3>"@[2]);
            assert("<F2>"@[2] != "<F4>"@[2]);
            assert("<F2>"@[2] != "<F5>"@[2]);
            assert("<F2>"@[2] != "<F6>"@[2]);
            assert("<F2>"@[2] != "<F7>"@[2]);
            assert("<F2>"@[2] != "<F8>"@[2]);
            assert("<F2>"@[2] != "<F9>"@[2]);
            assert("<F2>"@[1] == 'F');
        },
        Key::F3 => {
            assert("<F3>"@[1] != "<Up>"@[1]);
            assert("<F3>"@[2] != "<F0>"@[2]);
            assert("<F3>"@[2] != "<F1>"@[2]);
            assert("<F3>"@[2] != "<F2>"@[2]);
            assert("<F3>"@[2] != "<F4>"@[2]);
            assert("<F3>"@[2] != "<F5>"@[2]);
            assert("<F3>"@[2] != "<F6>"@[2]);
            assert("<F3>"@[2] != "<F7>"@[2]);
            assert("<F3>"@[2] != "<F8>"@[2]);
            assert("<F3>"@[2] != "<F9>"@[2]);
            assert("<F3>"@[1] == 'F');
        },
        Key::F4 => {
            assert("<F4>"@[1] != "<Up>"@[1]);
            assert("<F4>"@[2] != "<F0>"@[2]);
            assert("<F4>"@[2] != "<F1>"@[2]);
            assert("<F4>"@[2] != "<F2>"@[2]);
            assert("<F4>"@[2] != "<F3>"@[2]);
            assert("<F4>"@[2] != "<F5>"@[2]);
            assert("<F4>"@[2] != "<F6>"@[2]);
            assert("<F4>"@[2] != "<F7>"@[2]);
            assert("<F4>"@[2] != "<F8>"@[2]);
            assert("<F4>"@[2] != "<F9>"@[2]);
            assert("<F4>"@[1] == 'F');
        },
        Key::F5 => {
            assert("<F5>"@[1] != "<Up>"@[1]);
            assert("<F5>"@[2] != "<F0>"@[2]);
            assert("<F5>"@[2] != "<F1>"@[2]);
            assert("<F5>"@[2] != "<F2>"@[2]);
            assert("<F5>"@[2] != "<F3>"@[2]);
            assert("<F5>"@[2] != "<F4>"@[2]);
            assert("<F5>"@[2] != "<F6>"@[2]);
            assert("<F5>"@[2] != "<F7>"@[2]);
            assert("<F5>"@[2] != "<F8>"@[2]);
            assert("<F5>"@[2] != "<F9>"@[2]);
            assert("<F5>"@[1] == 'F');
        },
        Key::F6 => {
            assert("<F6>"@[1] != "<Up>"@[1]);
            assert("<F6>"@[2] != "<F0>"@[2]);
            assert("<F6>"@[2] != "<F1>"@[2]);
            assert("<F6>"@[2] != "<F2>"@[2]);
            assert("<F6>"@[2] != "<F3>"@[2]);
            assert("<F6>"@[2] != "<F4>"@[2]);
            assert("<F6>"@[2] != "<F5>"@[2]);
            assert("<F6>"@[2] != "<F7>"@[2]);
            assert("<F6>"@[2] != "<F8>"@[2]);
            assert("<F6>"@[2] != "<F9>"@[2]);
            assert("<F6>"@[1] == 'F');
        },
        Key::F7 => {
            assert("<F7>"@[1] != "<Up>"@[1]);
            assert("<F7>"@[2] != "<F0>"@[2]);
            assert("<F7>"@[2] != "<F1>"@[2]);
            assert("<F7>"@[2] != "<F2>"@[2]);
            assert("<F7>"@[2] != "<F3>"@[2]);
            assert("<F7>"@[2] != "<F4>"@[2]);
            assert("<F7>"@[2] != "<F5>"@[2]);
            assert("<F7>"@[2] != "<F6>"@[2]);
            assert("<F7>"@[2] != "<F8>"@[2]);
            assert("<F7>"@[2] != "<F9>"@[2]);
            assert("<F7>"@[1] == 'F');
        },
        Key::F8 => {
            assert("<F8>"@[1] != "<Up>"@[1]);
            assert("<F8>"@[2] != "<F0>"@[2]);
            assert("<F8>"@[2] != "<F1>"@[2]);
            assert("<F8>"@[2] != "<F2>"@[2]);
            assert("<F8>"@[2] != "<F3>"@[2]);
            assert("<F8>"@[2] != "<F4>"@[2]);
            assert("<F8>"@[2] != "<F5>"@[2]);
            assert("<F8>"@[2] != "<F6>"@[2]);
            assert("<F8>"@[2] != "<F7>"@[2]);
            assert("<F8>"@[2] != "<F9>"@[2]);
            assert("<F8>"@[1] == 'F');
        },
        Key::F9 => {
            assert("<F9>"@[1] != "<Up>"@[1]);
            assert("<F9>"@[2] != "<F0>"@[2]);
            assert("<F9>"@[2] != "<F1>"@[2]);
            assert("<F9>"@[2] != "<F2>"@[2]);
            assert("<F9>"@[2] != "<F3>"@[2]);
            assert("<F9>"@[2] != "<F4>"@[2]);
            assert("<F9>"@[2] != "<F5>"@[2]);
            assert("<F9>"@[2] != "<F6>"@[2]);
            assert("<F9>"@[2] != "<F7>"@[2]);
            assert("<F9>"@[2] != "<F8>"@[2]);
            assert("<F9>"@[1] == 'F');
        },
        Key::F10 => {
            assert("<F10>"@[1] != "<Tab>"@[1]);
            assert("<F10>"@[1] != "<Esc>"@[1]);
            assert("<F10>"@[1] != "<Ins>"@[1]);
            assert("<F10>"@[1] != "<End>"@[1]);
            assert("<F10>"@[3] != "<F11>"@[3]);
            assert("<F10>"@[3] != "<F12>"@[3]);
            assert("<F10>"@[1] == 'F');
        },
        Key::F11 => {
            assert("<F11>"@[1] != "<Tab>"@[1]);
            assert("<F11>"@[1] != "<Esc>"@[1]);
            assert("<F11>"@[1] != "<Ins>"@[1]);
            assert("<F11>"@[1] != "<End>"@[1]);
            assert("<F11>"@[3] != "<F10>"@[3]);
            assert("<F11>"@[3] != "<F12>"@[3]);
            assert("<F11>"@[1] == 'F');
        },
        Key::F12 => {
            assert("<F12>"@[1] != "<Tab>"@[1]);
            assert("<F12>"@[1] != "<Esc>"@[1]);
            assert("<F12>"@[1] != "<Ins>"@[1]);
            assert("<F12>"@[1] != "<End>"@[1]);
            assert("<F12>"@[3] != "<F10>"@[3]);
            assert("<F12>"@[3] != "<F11>"@[3]);
            assert("<F12>"@[1] == 'F');
        },
        Key::BackTab => {
            assert("<Shift+Tab>"@[1] != "<Backspace>"@[1]);
            assert("<Shift+Tab>"@[1] != "<Alt+Space>"@[1]);
            assert("<Shift+Tab>"@[1] == 'S');
        },
        Key::ShiftUp => {
            assert("<Shift+Up>"@[1] != "<PageDown>"@[1]);
            assert("<Shift+Up>"@[1] == 'S');
        },
        Key::ShiftDown => {
            assert("<Shift+Down>"@[7] != "<Shift+Left>"@[7]);
            assert("<Shift+Down>"@[1] != "<Ctrl+Space>"@[1]);
            assert("<Shift+Down>"@[1] == 'S');
        },
        Key::ShiftLeft => {
            assert("<Shift+Left>"@[7] != "<Shift+Down>"@[7]);
            assert("<Shift+Left>"@[1] != "<Ctrl+Space>"@[1]);
            assert("<Shift+Left>"@[1] == 'S');
        },
        Key::ShiftRight => {
            assert("<Shift+Right>"@[1] == 'S');
        },
        Key::Char(c) => {
            assert(key_label(k).len() == 3 && key_label(k)[1] == c);
        },
        Key::Alt(c) => {
            if c == ' ' {
                assert("<Alt+Space>"@[1] != "<Backspace>"@[1]);
                assert("<Alt+Space>"@[1] != "<Shift+Tab>"@[1]);
                assert("<Alt+Space>"@[1] == 'A');
            } else {
                assert(key_label(k).len() == 7 && key_label(k)[1] == 'A' && key_label(k)[5] == c);
            }
        },
        Key::Ctrl(c) => {
            if c == ' ' {
                assert("<Ctrl+Space>"@[1] != "<Shift+Down>"@[1]);
                assert("<Ctrl+Space>"@[1] != "<Shift+Left>"@[1]);
                assert("<Ctrl+Space>"@[1] == 'C');
            } else {
                assert(key_label(k).len() == 8 && key_label(k)[1] == 'C' && key_label(k)[6] == c);
            }
        },
        Key::Unknown => {},
    }
    assert(forall|o: Key| o != Key::Unknown && key_label(o) == key_label(k) ==> o == k);
}

/// No two keys share a stored name.
pub proof fn lemma_key_name_unique(k: Key)
    ensures
        forall|o: Key| key_name(k).is_some() && key_name(o) == key_name(k) ==> o == k,
{
    reveal_strlit("Enter");
    reveal_strlit("Tab");
    reveal_strlit("Backspace");
    reveal_strlit("Esc");
    reveal_strlit("Space");
    reveal_strlit("Left");
    reveal_strlit("Right");
    reveal_strlit("Up");
    reveal_strlit("Down");
    reveal_strlit("Ins");
    reveal_strlit("Delete");
    reveal_strlit("Home");
    reveal_strlit("End");
    reveal_strlit("PageUp");
    reveal_strlit("PageDown");
    reveal_strlit("F0");
    reveal_strlit("F1");
    reveal_strlit("F2");
    reveal_strlit("F3");
    reveal_strlit("F4");
    reveal_strlit("F5");
    reveal_strlit("F6");
    reveal_strlit("F7");
    reveal_strlit("F8");
    reveal_strlit("F9");
    reveal_strlit("F10");
    reveal_strlit("F11");
    reveal_strlit("F12");
    reveal_strlit("BackTab");
    reveal_strlit("ShiftUp");
    reveal_strlit("ShiftDown");
    reveal_strlit("ShiftLeft");
    reveal_strlit("ShiftRight");
    assert("Enter"@.len() == 5);
    assert("Tab"@.len() == 3);
    assert("Backspace"@.len() == 9);
    assert("Esc"@.len() == 3);
    assert("Space"@.len() == 5);
    assert("Left"@.len() == 4);
    assert("Right"@.len() == 5);
    assert("Up"@.len() == 2);
    assert("Down"@.len() == 4);
    assert("Ins"@.len() == 3);
    assert("Delete"@.len() == 6);
    assert("Home"@.len() == 4);
    assert("End"@.len() == 3);
    assert("PageUp"@.len() == 6);
    assert("PageDown"@.len() == 8);
    assert("F0"@.len() == 2);
    assert("F1"@.len() == 2);
    assert("F2"@.len() == 2);
    assert("F3"@.len() == 2);
    assert("F4"@.len() == 2);
    assert("F5"@.len() == 2);
    assert("F6"@.len() == 2);
    assert("F7"@.len() == 2);
    assert("F8"@.len() == 2);
    assert("F9"@.len() == 2);
    assert("F10"@.len() == 3);
    assert("F11"@.len() == 3);
    assert("F12"@.len() == 3);
    assert("BackTab"@.len() == 7);
    assert("ShiftUp"@.len() == 7);
    assert("ShiftDown"@.len() == 9);
    assert("ShiftLeft"@.len() == 9);
    assert("ShiftRight"@.len() == 10);
    match k {
        Key::Enter => {
            assert("Enter"@[0] != "Space"@[0]);
            assert("Enter"@[0] != "Right"@[0]);
            assert(forall|o: Key| key_name(o) == Some("Enter"@) ==> o == Key::Enter);
        },
        Key::Tab => {
            assert("Tab"@[0] != "Esc"@[0]);
            assert("Tab"@[0] != "Ins"@[0]);
            assert("Tab"@[0] != "End"@[0]);
            assert("Tab"@[0] != "F10"@[0]);
            assert("Tab"@[0] != "F11"@[0]);
            assert("Tab"@[0] != "F12"@[0]);
            assert(forall|o: Key| key_name(o) == Some("Tab"@) ==> o == Key::Tab);
        },
        Key::Backspace => {
            assert("Backspace"@[0] != "ShiftDown"@[0]);
            assert("Backspace"@[0] != "ShiftLeft"@[0]);
            assert(forall|o: Key| key_name(o) == Some("Backspace"@) ==> o == Key::Backspace);
        },
        Key::Esc => {
            assert("Esc"@[0] != "Tab"@[0]);
            assert("Esc"@[0] != "Ins"@[0]);
            assert("Esc"@[1] != "End"@[1]);
            assert("Esc"@[0] != "F10"@[0]);
            assert("Esc"@[0] != "F11"@[0]);
            assert("Esc"@[0] != "F12"@[0]);
            assert(forall|o: Key| key_name(o) == Some("Esc"@) ==> o == Key::Esc);
        },
        Key::Space => {
            assert("Space"@[0] != "Enter"@[0]);
            assert("Space"@[0] != "Right"@[0]);
            assert(forall|o: Key| key_name(o) == Some("Space"@) ==> o == Key::Space);
        },
        Key::Left => {
            assert("Left"@[0] != "Down"@[0]);
            assert("Left"@[0] != "Home"@[0]);
            assert(forall|o: Key| key_name(o) == Some("Left"@) ==> o == Key::Left);
        },
        Key::Right => {
            assert("Right"@[0] != "Enter"@[0]);
            assert("Right"@[0] != "Space"@[0]);
            assert(forall|o: Key| key_name(o) == Some("Right"@) ==> o == Key::Right);
        },
        Key::Up => {
            assert("Up"@[0] != "F0"@[0]);
            assert("Up"@[0] != "F1"@[0]);
            assert("Up"@[0] != "F2"@[0]);
            assert("Up"@[0] != "F3"@[0]);
            assert("Up"@[0] != "F4"@[0]);
            assert("Up"@[0] != "F5"@[0]);
            assert("Up"@[0] != "F6"@[0]);
            assert("Up"@[0] != "F7"@[0]);
            assert("Up"@[0] != "F8"@[0]);
            assert("Up"@[0] != "F9"@[0]);
            assert(forall|o: Key| key_name(o) == Some("Up"@) ==> o == Key::Up);
        },
        Key::Down => {
            assert("Down"@[0] != "Left"@[0]);
            assert("Down"@[0] != "Home"@[0]);
            assert(forall|o: Key| key_name(o) == Some("Down"@) ==> o == Key::Down);
        },
        Key::Ins => {
            assert("Ins"@[0] != "Tab"@[0]);
            assert("Ins"@[0] != "Esc"@[0]);
            assert("Ins"@[0] != "End"@[0]);
            assert("Ins"@[0] != "F10"@[0]);
            assert("Ins"@[0] != "F11"@[0]);
            assert("Ins"@[0] != "F12"@[0]);
            assert(forall|o: Key| key_name(o) == Some("Ins"@) ==> o == Key::Ins);
        },
        Key::Delete => {
            assert("Delete"@[0] != "PageUp"@[0]);
            assert(forall|o: Key| key_name(o) == Some("Delete"@) ==> o == Key::Delete);
        },
        Key::Home => {
            assert("Home"@[0] != "Left"@[0]);
            assert("Home"@[0] != "Down"@[0]);
            assert(forall|o: Key| key_name(o) == Some("Home"@) ==> o == Key::Home);
        },
        Key::End => {
            assert("End"@[0] != "Tab"@[0]);
            assert("End"@[1] != "Esc"@[1]);
            assert("End"@[0] != "Ins"@[0]);
            assert("End"@[0] != "F10"@[0]);
            assert("End"@[0] != "F11"@[0]);
            assert("End"@[0] != "F12"@[0]);
            assert(forall|o: Key| key_name(o) == Some("End"@) ==> o == Key::End);
        },
        Key::PageUp => {
            assert("PageUp"@[0] != "Delete"@[0]);
            assert(forall|o: Key| key_name(o) == Some("PageUp"@) ==> o == Key::PageUp);
        },
        Key::PageDown => {
            assert(forall|o: Key| key_name(o) == Some("PageDown"@) ==> o == Key::PageDown);
        },
        Key::F0 => {
            assert("F0"@[0] != "Up"@[0]);
            assert("F0"@[1] != "F1"@[1]);
            assert("F0"@[1] != "F2"@[1]);
            assert("F0"@[1] != "F3"@[1]);
            assert("F0"@[1] != "F4"@[1]);
            assert("F0"@[1] != "F5"@[1]);
            assert("F0"@[1] != "F6"@[1]);
            assert("F0"@[1] != "F7"@[1]);
            assert("F0"@[1] != "F8"@[1]);
            assert("F0"@[1] != "F9"@[1]);
            assert(forall|o: Key| key_name(o) == Some("F0"@) ==> o == Key::F0);
        },
        Key::F1 => {
            assert("F1"@[0] != "Up"@[0]);
            assert("F1"@[1] != "F0"@[1]);
            assert("F1"@[1] != "F2"@[1]);
            assert("F1"@[1] != "F3"@[1]);
            assert("F1"@[1] != "F4"@[1]);
            assert("F1"@[1] != "F5"@[1]);
            assert("F1"@[1] != "F6"@[1]);
            assert("F1"@[1] != "F7"@[1]);
            assert("F1"@[1] != "F8"@[1]);
            assert("F1"@[1] != "F9"@[1]);
            assert(forall|o: Key| key_name(o) == Some("F1"@) ==> o == Key::F1);
        },
        Key::F2 => {
            assert("F2"@[0] != "Up"@[0]);
            assert("F2"@[1] != "F0"@[1]);
            assert("F2"@[1] != "F1"@[1]);
            assert("F2"@[1] != "F3"@[1]);
            assert("F2"@[1] != "F4"@[1]);
            assert("F2"@[1] != "F5"@[1]);
            assert("F2"@[1] != "F6"@[1]);
            assert("F2"@[1] != "F7"@[1]);
            assert("F2"@[1] != "F8"@[1]);
            assert("F2"@[1] != "F9"@[1]);
            assert(forall|o: Key| key_name(o) == Some("F2"@) ==> o == Key::F2);
        },
        Key::F3 => {
            assert("F3"@[0] != "Up"@[0]);
            assert("F3"@[1] != "F0"@[1]);
            assert("F3"@[1] != "F1"@[1]);
            assert("F3"@[1] != "F2"@[1]);
            assert("F3"@[1] != "F4"@[1]);
            assert("F3"@[1] != "F5"@[1]);
            assert("F3"@[1] != "F6"@[1]);
            assert("F3"@[1] != "F7"@[1]);
            assert("F3"@[1] != "F8"@[1]);
            assert("F3"@[1] != "F9"@[1]);
            assert(forall|o: Key| key_name(o) == Some("F3"@) ==> o == Key::F3);
        },
        Key::F4 => {
            assert("F4"@[0] != "Up"@[0]);
            assert("F4"@[1] != "F0"@[1]);
            assert("F4"@[1] != "F1"@[1]);
            assert("F4"@[1] != "F2"@[1]);
            assert("F4"@[1] != "F3"@[1]);
            assert("F4"@[1] != "F5"@[1]);
            assert("F4"@[1] != "F6"@[1]);
            assert("F4"@[1] != "F7"@[1]);
            assert("F4"@[1] != "F8"@[1]);
            assert("F4"@[1] != "F9"@[1]);
            assert(forall|o: Key| key_name(o) == Some("F4"@) ==> o == Key::F4);
        },
        Key::F5 => {
            assert("F5"@[0] != "Up"@[0]);
            assert("F5"@[1] != "F0"@[1]);
            assert("F5"@[1] != "F1"@[1]);
            assert("F5"@[1] != "F2"@[1]);
            assert("F5"@[1] != "F3"@[1]);
            assert("F5"@[1] != "F4"@[1]);
            assert("F5"@[1] != "F6"@[1]);
            assert("F5"@[1] != "F7"@[1]);
            assert("F5"@[1] != "F8"@[1]);
            assert("F5"@[1] != "F9"@[1]);
            assert(forall|o: Key| key_name(o) == Some("F5"@) ==> o == Key::F5);
        },
        Key::F6 => {
            assert("F6"@[0] != "Up"@[0]);
            assert("F6"@[1] != "F0"@[1]);
            assert("F6"@[1] != "F1"@[1]);
            assert("F6"@[1] != "F2"@[1]);
            assert("F6"@[1] != "F3"@[1]);
            assert("F6"@[1] != "F4"@[1]);
            assert("F6"@[1] != "F5"@[1]);
            assert("F6"@[1] != "F7"@[1]);
            assert("F6"@[1] != "F8"@[1]);
            assert("F6"@[1] != "F9"@[1]);
            assert(forall|o: Key| key_name(o) == Some("F6"@) ==> o == Key::F6);
        },
        Key::F7 => {
            assert("F7"@[0] != "Up"@[0]);
            assert("F7"@[1] != "F0"@[1]);
            assert("F7"@[1] != "F1"@[1]);
            assert("F7"@[1] != "F2"@[1]);
            assert("F7"@[1] != "F3"@[1]);
            assert("F7"@[1] != "F4"@[1]);
            assert("F7"@[1] != "F5"@[1]);
            assert("F7"@[1] != "F6"@[1]);
            assert("F7"@[1] != "F8"@[1]);
            assert("F7"@[1] != "F9"@[1]);
            assert(forall|o: Key| key_name(o) == Some("F7"@) ==> o == Key::F7);
        },
        Key::F8 => {
            assert("F8"@[0] != "Up"@[0]);
            assert("F8"@[1] != "F0"@[1]);
            assert("F8"@[1] != "F1"@[1]);
            assert("F8"@[1] != "F2"@[1]);
            assert("F8"@[1] != "F3"@[1]);
            assert("F8"@[1] != "F4"@[1]);
            assert("F8"@[1] != "F5"@[1]);
            assert("F8"@[1] != "F6"@[1]);
            assert("F8"@[1] != "F7"@[1]);
            assert("F8"@[1] != "F9"@[1]);
            assert(forall|o: Key| key_name(o) == Some("F8"@) ==> o == Key::F8);
        },
        Key::F9 => {
            assert("F9"@[0] != "Up"@[0]);
            assert("F9"@[1] != "F0"@[1]);
            assert("F9"@[1] != "F1"@[1]);
            assert("F9"@[1] != "F2"@[1]);
            assert("F9"@[1] != "F3"@[1]);
            assert("F9"@[1] != "F4"@[1]);
            assert("F9"@[1] != "F5"@[1]);
            assert("F9"@[1] != "F6"@[1]);
            assert("F9"@[1] != "F7"@[1]);
            assert("F9"@[1] != "F8"@[1]);
            assert(forall|o: Key| key_name(o) == Some("F9"@) ==> o == Key::F9);
        },
        Key::F10 => {
            assert("F10"@[0] != "Tab"@[0]);
            assert("F10"@[0] != "Esc"@[0]);
            assert("F10"@[0] != "Ins"@[0]);
            assert("F10"@[0] != "End"@[0]);
            assert("F10"@[2] != "F11"@[2]);
            assert("F10"@[2] != "F12"@[2]);
            assert(forall|o: Key| key_name(o) == Some("F10"@) ==> o == Key::F10);
        },
        Key::F11 => {
            assert("F11"@[0] != "Tab"@[0]);
            assert("F11"@[0] != "Esc"@[0]);
            assert("F11"@[0] != "Ins"@[0]);
            assert("F11"@[0] != "End"@[0]);
            assert("F11"@[2] != "F10"@[2]);
            assert("F11"@[2] != "F12"@[2]);
            assert(forall|o: Key| key_name(o) == Some("F11"@) ==> o == Key::F11);
        },
        Key::F12 => {
            assert("F12"@[0] != "Tab"@[0]);
            assert("F12"@[0] != "Esc"@[0]);
            assert("F12"@[0] != "Ins"@[0]);
            assert("F12"@[0] != "End"@[0]);
            assert("F12"@[2] != "F10"@[2]);
            assert("F12"@[2] != "F11"@[2]);
            assert(forall|o: Key| key_name(o) == Some("F12"@) ==> o == Key::F12);
        },
        Key::BackTab => {
            assert("BackTab"@[0] != "ShiftUp"@[0]);
            assert(forall|o: Key| key_name(o) == Some("BackTab"@) ==> o == Key::BackTab);
        },
        Key::ShiftUp => {
            assert("ShiftUp"@[0] != "BackTab"@[0]);
            assert(forall|o: Key| key_name(o) == Some("ShiftUp"@) ==> o == Key::ShiftUp);
        },
        Key::ShiftDown => {
            assert("ShiftDown"@[0] != "Backspace"@[0]);
            assert("ShiftDown"@[5] != "ShiftLeft"@[5]);
            assert(forall|o: Key| key_name(o) == Some("ShiftDown"@) ==> o == Key::ShiftDown);
        },
        Key::ShiftLeft => {
            assert("ShiftLeft"@[0] != "Backspace"@[0]);
            assert("ShiftLeft"@[5] != "ShiftDown"@[5]);
            assert(forall|o: Key| key_name(o) == Some("ShiftLeft"@) ==> o == Key::ShiftLeft);
        },
        Key::ShiftRight => {
            assert(forall|o: Key| key_name(o) == Some("ShiftRight"@) ==> o == Key::ShiftRight);
        },
        _ => {},
    }
}

/// Reading back the stored name of a key gives that key.
pub proof fn lemma_key_name_round_trip(k: Key, r: Key)
    requires
        key_name(k).is_some(),
        key_name(r) == key_name(k) || (r == Key::Unknown && forall|o: Key| key_name(o) != key_name(k)),
    ensures
        r == k,
{
    lemma_key_name_unique(k);
}

#[verifier::external_type_specification]
#[verifier::external_body]
pub struct ExJsonValue(serde_json::Value);

#[verifier::external_type_specification]
#[verifier::external_body]
#[verifier::reject_recursive_types(K)]
#[verifier::reject_recursive_types(V)]
pub struct ExJsonMap<K, V>(serde_json::Map<K, V>);

/// What a JSON object holds, as far as keys are concerned: for each entry
/// name, the entry's text where the entry is a JSON string, and `None` where
/// it is some other JSON value.
pub uninterp spec fn json_text_entries(m: serde_json::Map<String, serde_json::Value>) -> Map<
    Seq<char>,
    Option<Seq<char>>,
>;

/// Relies on serde_json's `Map::get` to find the entry named `name`, and on
/// `Value::as_str` to read its text where the entry is a JSON string.
#[verifier::external_body]
fn json_text_entry(m: &serde_json::Map<String, serde_json::Value>, name: &str) -> (r: Option<
    Option<String>,
>)
    ensures
        r.is_some() == json_text_entries(*m).contains_key(name@),
        r.is_some() ==> json_text_entries(*m)[name@] == text_view(r.unwrap()),
{
    match m.get(name) {
        Some(v) => Some(v.as_str().map(String::from)),
        None => None,
    }
}

/// Relies on `String::push`: the string grows by the one character.
#[verifier::external_body]
fn push_char(s: &mut String, c: char)
    ensures
        final(s)@ == old(s)@.push(c),
{
    s.push(c)
}

fn first_char_of(t: &Option<String>) -> (r: Option<char>)
    ensures
        r == first_char(text_view(*t)),
{
    match t {
        Some(s) => {
            let s = s.as_str();
            if s.unicode_len() > 0 {
                Some(s.get_char(0))
            } else {
                None
            }
        },
        None => None,
    }
}

impl Key {
    /// The function key numbered `n`.
    pub fn from_f(n: u8) -> (r: Key)
        requires
            n <= 12,
        ensures
            r == function_key(n),
    {
        match n {
            0 => Key::F0,
            1 => Key::F1,
            2 => Key::F2,
            3 => Key::F3,
            4 => Key::F4,
            5 => Key::F5,
            6 => Key::F6,
            7 => Key::F7,
            8 => Key::F8,
            9 => Key::F9,
            10 => Key::F10,
            11 => Key::F11,
            12 => Key::F12,
            _ => Key::Unknown,
        }
    }

    /// The value of a decimal digit key.
    pub fn to_digit(&self) -> (r: u8)
        requires
            match *self {
                Key::Char(c) => '0' <= c <= '9',
                _ => false,
            },
        ensures
            match *self {
                Key::Char(c) => r == c as u32 - '0' as u32,
                _ => false,
            },
    {
        match self {
            Key::Char(c) => (*c as u32 - '0' as u32) as u8,
            _ => 0,
        }
    }

    /// Normalises a raw key event into a logical key.
    pub fn from_input(e: KeyInput) -> (r: Key)
        ensures
            r == normalized(e),
    {
        if !e.pressed {
            return Key::Unknown;
        }
        match e.code {
            InputCode::Esc => Key::Esc,
            InputCode::Backspace => Key::Backspace,
            InputCode::Left => if e.shift { Key::ShiftLeft } else { Key::Left },
            InputCode::Right => if e.shift { Key::ShiftRight } else { Key::Right },
            InputCode::Up => if e.shift { Key::ShiftUp } else { Key::Up },
            InputCode::Down => if e.shift { Key::ShiftDown } else { Key::Down },
            InputCode::Home => Key::Home,
            InputCode::End => Key::End,
            InputCode::PageUp => Key::PageUp,
            InputCode::PageDown => Key::PageDown,
            InputCode::Delete => Key::Delete,
            InputCode::Insert => Key::Ins,
            InputCode::F(n) => if n <= 12 { Key::from_f(n) } else { Key::Unknown },
            InputCode::Enter => Key::Enter,
            InputCode::BackTab => Key::BackTab,
            InputCode::Tab => Key::Tab,
            InputCode::Char(c) => if e.control {
                Key::Ctrl(c)
            } else if e.alt {
                Key::Alt(c)
            } else {
                Key::Char(c)
            },
            InputCode::Other => Key::Unknown,
        }
    }

    /// Reads a stored key name; a name that no key has gives `Unknown`.
    pub fn from_name(s: &str) -> (r: Key)
        ensures
            key_name(r) == Some(s@) || (r == Key::Unknown && forall|k: Key| key_name(k) != Some(s@)),
    {
        if str_equal(s, "Enter") {
            Key::Enter
        } else if str_equal(s, "Tab") {
            Key::Tab
        } else if str_equal(s, "Backspace") {
            Key::Backspace
        } else if str_equal(s, "Esc") {
            Key::Esc
        } else if str_equal(s, "Space") {
            Key::Space
        } else if str_equal(s, "Left") {
            Key::Left
        } else if str_equal(s, "Right") {
            Key::Right
        } else if str_equal(s, "Up") {
            Key::Up
        } else if str_equal(s, "Down") {
            Key::Down
        } else if str_equal(s, "Ins") {
            Key::Ins
        } else if str_equal(s, "Delete") {
            Key::Delete
        } else if str_equal(s, "Home") {
            Key::Home
        } else if str_equal(s, "End") {
            Key::End
        } else if str_equal(s, "PageUp") {
            Key::PageUp
        } else if str_equal(s, "PageDown") {
            Key::PageDown
        } else if str_equal(s, "F0") {
            Key::F0
        } else if str_equal(s, "F1") {
            Key::F1
        } else if str_equal(s, "F2") {
            Key::F2
        } else if str_equal(s, "F3") {
            Key::F3
        } else if str_equal(s, "F4") {
            Key::F4
        } else if str_equal(s, "F5") {
            Key::F5
        } else if str_equal(s, "F6") {
            Key::F6
        } else if str_equal(s, "F7") {
            Key::F7
        } else if str_equal(s, "F8") {
            Key::F8
        } else if str_equal(s, "F9") {
            Key::F9
        } else if str_equal(s, "F10") {
            Key::F10
        } else if str_equal(s, "F11") {
            Key::F11
        } else if str_equal(s, "F12") {
            Key::F12
        } else if str_equal(s, "BackTab") {
            Key::BackTab
        } else if str_equal(s, "ShiftUp") {
            Key::ShiftUp
        } else if str_equal(s, "ShiftDown") {
            Key::ShiftDown
        } else if str_equal(s, "ShiftLeft") {
            Key::ShiftLeft
        } else if str_equal(s, "ShiftRight") {
            Key::ShiftRight
        } else {
            Key::Unknown
        }
    }

    /// The stored name of this key, for keys that carry no character.
    pub fn to_name(&self) -> (r: Option<&'static str>)
        ensures
            match r {
                Some(t) => key_name(*self) == Some(t@),
                None => key_name(*self).is_none(),
            },
    {
        match self {
            Key::Enter => Some("Enter"),
            Key::Tab => Some("Tab"),
            Key::Backspace => Some("Backspace"),
            Key::Esc => Some("Esc"),
            Key::Space => Some("Space"),
            Key::Left => Some("Left"),
            Key::Right => Some("Right"),
            Key::Up => Some("Up"),
            Key::Down => Some("Down"),
            Key::Ins => Some("Ins"),
            Key::Delete => Some("Delete"),
            Key::Home => Some("Home"),
            Key::End => Some("End"),
            Key::PageUp => Some("PageUp"),
            Key::PageDown => Some("PageDown"),
            Key::F0 => Some("F0"),
            Key::F1 => Some("F1"),
            Key::F2 => Some("F2"),
            Key::F3 => Some("F3"),
            Key::F4 => Some("F4"),
            Key::F5 => Some("F5"),
            Key::F6 => Some("F6"),
            Key::F7 => Some("F7"),
            Key::F8 => Some("F8"),
            Key::F9 => Some("F9"),
            Key::F10 => Some("F10"),
            Key::F11 => Some("F11"),
            Key::F12 => Some("F12"),
            Key::BackTab => Some("BackTab"),
            Key::ShiftUp => Some("ShiftUp"),
            Key::ShiftDown => Some("ShiftDown"),
            Key::ShiftLeft => Some("ShiftLeft"),
            Key::ShiftRight => Some("ShiftRight"),
            _ => None,
        }
    }

    /// Reads a key stored as a JSON object with a `Char`, `Alt` or `Ctrl` entry.
    pub fn from_json_map(value: &serde_json::Map<String, serde_json::Value>) -> (r: Key)
        ensures
            r == key_of_entries(json_text_entries(*value)),
    {
        let as_char = json_text_entry(value, "Char");
        if let Some(t) = as_char {
            return match first_char_of(&t) {
                Some(c) => Key::Char(c),
                None => Key::Unknown,
            };
        }
        let as_alt = json_text_entry(value, "Alt");
        if let Some(t) = as_alt {
            return match first_char_of(&t) {
                Some(c) => Key::Alt(c),
                None => Key::Unknown,
            };
        }
        let as_ctrl = json_text_entry(value, "Ctrl");
        if let Some(t) = as_ctrl {
            return match first_char_of(&t) {
                Some(c) => Key::Ctrl(c),
                None => Key::Unknown,
            };
        }
        Key::Unknown
    }

    /// The bracketed label of this key.
    pub fn to_display_string(&self) -> (r: String)
        ensures
            r@ == key_label(*self),
    {
        match *self {
            Key::Alt(c) => if c == ' ' {
                String::from_str("<Alt+Space>")
            } else {
                let r = enclosed("<Alt+", c);
                proof {
                    reveal_strlit("<Alt+");
                    assert(r@ =~= seq!['<', 'A', 'l', 't', '+', c, '>']);
                }
                r
            },
            Key::Ctrl(c) => if c == ' ' {
                String::from_str("<Ctrl+Space>")
            } else {
                let r = enclosed("<Ctrl+", c);
                proof {
                    reveal_strlit("<Ctrl+");
                    assert(r@ =~= seq!['<', 'C', 't', 'r', 'l', '+', c, '>']);
                }
                r
            },
            Key::Char(c) => {
                let r = enclosed("<", c);
                proof {
                    reveal_strlit("<");
                    assert(r@ =~= seq!['<', c, '>']);
                }
                r
            },
            Key::Enter => String::from_str("<Enter>"),
            Key::Tab => String::from_str("<Tab>"),
            Key::Backspace => String::from_str("<Backspace>"),
            Key::Esc => String::from_str("<Esc>"),
            Key::Space => String::from_str("<Space>"),
            Key::Left => String::from_str("<Left>"),
            Key::Right => String::from_str("<Right>"),
            Key::Up => String::from_str("<Up>"),
            Key::Down => String::from_str("<Down>"),
            Key::Ins => String::from_str("<Ins>"),
            Key::Delete => String::from_str("<Delete>"),
            Key::Home => String::from_str("<Home>"),
            Key::End => String::from_str("<End>"),
            Key::PageUp => String::from_str("<PageUp>"),
            Key::PageDown => String::from_str("<PageDown>"),
            Key::F0 => String::from_str("<F0>"),
            Key::F1 => String::from_str("<F1>"),
            Key::F2 => String::from_str("<F2>"),
            Key::F3 => String::from_str("<F3>"),
            Key::F4 => String::from_str("<F4>"),
            Key::F5 => String::from_str("<F5>"),
            Key::F6 => String::from_str("<F6>"),
            Key::F7 => String::from_str("<F7>"),
            Key::F8 => String::from_str("<F8>"),
            Key::F9 => String::from_str("<F9>"),
            Key::F10 => String::from_str("<F10>"),
            Key::F11 => String::from_str("<F11>"),
            Key::F12 => String::from_str("<F12>"),
            Key::BackTab => String::from_str("<Shift+Tab>"),
            Key::ShiftUp => String::from_str("<Shift+Up>"),
            Key::ShiftDown => String::from_str("<Shift+Down>"),
            Key::ShiftLeft => String::from_str("<Shift+Left>"),
            Key::ShiftRight => String::from_str("<Shift+Right>"),
            Key::Unknown => String::from_str("<Unknown>"),
        }
    }
}

/// `prefix` followed by the character and `>`.
fn enclosed(prefix: &str, c: char) -> (r: String)
    ensures
        r@ == prefix@ + seq![c, '>'],
{
    let mut s = String::from_str(prefix);
    push_char(&mut s, c);
    s.append(">");
    proof {
        reveal_strlit(">");
    }
    assert(s@ =~= prefix@ + seq![c, '>']);
    s
}

} // verus!
