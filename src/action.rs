use vstd::prelude::*;

use crate::key::Key;
use crate::text::str_equal;

verus! {

/// How many actions there are.
pub const ACTION_COUNT: usize = 25;

/// An abstract user intent, independent of the key that triggers it. The
/// order of the variants is the priority order in which bindings are resolved.
#[derive(Clone, Copy, PartialEq, Eq, Structural, Hash, Debug)]
pub enum Action {
    Quit,
    NextFocus,
    PrvFocus,
    OpenConfigMenu,
    Up,
    Down,
    Right,
    Left,
    TakeUserInput,
    StopUserInput,
    HideUiElement,
    SaveState,
    NewBoard,
    NewCard,
    DeleteCard,
    DeleteBoard,
    ChangeCardStatusToCompleted,
    ChangeCardStatusToActive,
    ChangeCardStatusToStale,
    ResetUI,
    GoToMainMenu,
    ToggleCommandPalette,
    ClearAllToasts,
    Undo,
    Redo,
}

/// The action at a position of the priority order.
pub open spec fn action_at(i: int) -> Action
    recommends
        0 <= i < ACTION_COUNT,
{
    if i == 0 {
        Action::Quit
    } else if i == 1 {
        Action::NextFocus
    } else if i == 2 {
        Action::PrvFocus
    } else if i == 3 {
        Action::OpenConfigMenu
    } else if i == 4 {
        Action::Up
    } else if i == 5 {
        Action::Down
    } else if i == 6 {
        Action::Right
    } else if i == 7 {
        Action::Left
    } else if i == 8 {
        Action::TakeUserInput
    } else if i == 9 {
        Action::StopUserInput
    } else if i == 10 {
        Action::HideUiElement
    } else if i == 11 {
        Action::SaveState
    } else if i == 12 {
        Action::NewBoard
    } else if i == 13 {
        Action::NewCard
    } else if i == 14 {
        Action::DeleteCard
    } else if i == 15 {
        Action::DeleteBoard
    } else if i == 16 {
        Action::ChangeCardStatusToCompleted
    } else if i == 17 {
        Action::ChangeCardStatusToActive
    } else if i == 18 {
        Action::ChangeCardStatusToStale
    } else if i == 19 {
        Action::ResetUI
    } else if i == 20 {
        Action::GoToMainMenu
    } else if i == 21 {
        Action::ToggleCommandPalette
    } else if i == 22 {
        Action::ClearAllToasts
    } else if i == 23 {
        Action::Undo
    } else {
        Action::Redo
    }
}

/// The position of an action in the priority order.
pub open spec fn action_index(a: Action) -> int {
    match a {
        Action::Quit => 0,
        Action::NextFocus => 1,
        Action::PrvFocus => 2,
        Action::OpenConfigMenu => 3,
        Action::Up => 4,
        Action::Down => 5,
        Action::Right => 6,
        Action::Left => 7,
        Action::TakeUserInput => 8,
        Action::StopUserInput => 9,
        Action::HideUiElement => 10,
        Action::SaveState => 11,
        Action::NewBoard => 12,
        Action::NewCard => 13,
        Action::DeleteCard => 14,
        Action::DeleteBoard => 15,
        Action::ChangeCardStatusToCompleted => 16,
        Action::ChangeCardStatusToActive => 17,
        Action::ChangeCardStatusToStale => 18,
        Action::ResetUI => 19,
        Action::GoToMainMenu => 20,
        Action::ToggleCommandPalette => 21,
        Action::ClearAllToasts => 22,
        Action::Undo => 23,
        Action::Redo => 24,
    }
}

/// The stable identifier of an action, used in the stored configuration.
pub open spec fn action_name(a: Action) -> Seq<char> {
    match a {
        Action::Quit => "quit"@,
        Action::NextFocus => "next_focus"@,
        Action::PrvFocus => "prev_focus"@,
        Action::OpenConfigMenu => "open_config_menu"@,
        Action::Up => "up"@,
        Action::Down => "down"@,
        Action::Right => "right"@,
        Action::Left => "left"@,
        Action::TakeUserInput => "take_user_input"@,
        Action::StopUserInput => "stop_user_input"@,
        Action::HideUiElement => "hide_ui_element"@,
        Action::SaveState => "save_state"@,
        Action::NewBoard => "new_board"@,
        Action::NewCard => "new_card"@,
        Action::DeleteCard => "delete_card"@,
        Action::DeleteBoard => "delete_board"@,
        Action::ChangeCardStatusToCompleted => "change_card_status_to_completed"@,
        Action::ChangeCardStatusToActive => "change_card_status_to_active"@,
        Action::ChangeCardStatusToStale => "change_card_status_to_stale"@,
        Action::ResetUI => "reset_ui"@,
        Action::GoToMainMenu => "go_to_main_menu"@,
        Action::ToggleCommandPalette => "toggle_command_palette"@,
        Action::ClearAllToasts => "clear_all_toasts"@,
        Action::Undo => "undo"@,
        Action::Redo => "redo"@,
    }
}

/// The action with the identifier `s`, if any.
pub open spec fn action_named(s: Seq<char>) -> Option<Action> {
    if s == "quit"@ {
        Some(Action::Quit)
    } else if s == "next_focus"@ {
        Some(Action::NextFocus)
    } else if s == "prev_focus"@ {
        Some(Action::PrvFocus)
    } else if s == "open_config_menu"@ {
        Some(Action::OpenConfigMenu)
    } else if s == "up"@ {
        Some(Action::Up)
    } else if s == "down"@ {
        Some(Action::Down)
    } else if s == "right"@ {
        Some(Action::Right)
    } else if s == "left"@ {
        Some(Action::Left)
    } else if s == "take_user_input"@ {
        Some(Action::TakeUserInput)
    } else if s == "stop_user_input"@ {
        Some(Action::StopUserInput)
    } else if s == "hide_ui_element"@ {
        Some(Action::HideUiElement)
    } else if s == "save_state"@ {
        Some(Action::SaveState)
    } else if s == "new_board"@ {
        Some(Action::NewBoard)
    } else if s == "new_card"@ {
        Some(Action::NewCard)
    } else if s == "delete_card"@ {
        Some(Action::DeleteCard)
    } else if s == "delete_board"@ {
        Some(Action::DeleteBoard)
    } else if s == "change_card_status_to_completed"@ {
        Some(Action::ChangeCardStatusToCompleted)
    } else if s == "change_card_status_to_active"@ {
        Some(Action::ChangeCardStatusToActive)
    } else if s == "change_card_status_to_stale"@ {
        Some(Action::ChangeCardStatusToStale)
    } else if s == "reset_ui"@ {
        Some(Action::ResetUI)
    } else if s == "go_to_main_menu"@ {
        Some(Action::GoToMainMenu)
    } else if s == "toggle_command_palette"@ {
        Some(Action::ToggleCommandPalette)
    } else if s == "clear_all_toasts"@ {
        Some(Action::ClearAllToasts)
    } else if s == "undo"@ {
        Some(Action::Undo)
    } else if s == "redo"@ {
        Some(Action::Redo)
    } else {
        None
    }
}

/// The keys an action is bound to out of the box.
pub open spec fn default_keys(a: Action) -> Seq<Key> {
    match a {
        Action::Quit => seq![Key::Ctrl('c'), Key::Char('q')],
        Action::NextFocus => seq![Key::Tab],
        Action::PrvFocus => seq![Key::BackTab],
        Action::OpenConfigMenu => seq![Key::Char('c')],
        Action::Up => seq![Key::Up],
        Action::Down => seq![Key::Down],
        Action::Right => seq![Key::Right],
        Action::Left => seq![Key::Left],
        Action::TakeUserInput => seq![Key::Char('i')],
        Action::StopUserInput => seq![Key::Ins],
        Action::HideUiElement => seq![Key::Char('h')],
        Action::SaveState => seq![Key::Ctrl('s')],
        Action::NewBoard => seq![Key::Char('b')],
        Action::NewCard => seq![Key::Char('n')],
        Action::DeleteCard => seq![Key::Char('d')],
        Action::DeleteBoard => seq![Key::Char('D')],
        Action::ChangeCardStatusToCompleted => seq![Key::Char('1')],
        Action::ChangeCardStatusToActive => seq![Key::Char('2')],
        Action::ChangeCardStatusToStale => seq![Key::Char('3')],
        Action::ResetUI => seq![Key::Char('r')],
        Action::GoToMainMenu => seq![Key::Char('m')],
        Action::ToggleCommandPalette => seq![Key::Ctrl('p')],
        Action::ClearAllToasts => seq![Key::Char('t')],
        Action::Undo => seq![Key::Ctrl('z')],
        Action::Redo => seq![Key::Ctrl('y')],
    }
}

/// Positions and actions correspond one to one.
pub proof fn lemma_action_order(a: Action, i: int)
    ensures
        0 <= action_index(a) < ACTION_COUNT,
        action_at(action_index(a)) == a,
        0 <= i < ACTION_COUNT ==> action_index(action_at(i)) == i,
{
}

/// Every identifier names the action it belongs to, and no other.
pub proof fn lemma_action_name_round_trip(a: Action)
    ensures
        action_named(action_name(a)) == Some(a),
{
    reveal_strlit("quit");
    reveal_strlit("next_focus");
    reveal_strlit("prev_focus");
    reveal_strlit("open_config_menu");
    reveal_strlit("up");
    reveal_strlit("down");
    reveal_strlit("right");
    reveal_strlit("left");
    reveal_strlit("take_user_input");
    reveal_strlit("stop_user_input");
    reveal_strlit("hide_ui_element");
    reveal_strlit("save_state");
    reveal_strlit("new_board");
    reveal_strlit("new_card");
    reveal_strlit("delete_card");
    reveal_strlit("delete_board");
    reveal_strlit("change_card_status_to_completed");
    reveal_strlit("change_card_status_to_active");
    reveal_strlit("change_card_status_to_stale");
    reveal_strlit("reset_ui");
    reveal_strlit("go_to_main_menu");
    reveal_strlit("toggle_command_palette");
    reveal_strlit("clear_all_toasts");
    reveal_strlit("undo");
    reveal_strlit("redo");
    assert("quit"@.len() == 4);
    assert("next_focus"@.len() == 10);
    assert("prev_focus"@.len() == 10);
    assert("open_config_menu"@.len() == 16);
    assert("up"@.len() == 2);
    assert("down"@.len() == 4);
    assert("right"@.len() == 5);
    assert("left"@.len() == 4);
    assert("take_user_input"@.len() == 15);
    assert("stop_user_input"@.len() == 15);
    assert("hide_ui_element"@.len() == 15);
    assert("save_state"@.len() == 10);
    assert("new_board"@.len() == 9);
    assert("new_card"@.len() == 8);
    assert("delete_card"@.len() == 11);
    assert("delete_board"@.len() == 12);
    assert("change_card_status_to_completed"@.len() == 31);
    assert("change_card_status_to_active"@.len() == 28);
    assert("change_card_status_to_stale"@.len() == 27);
    assert("reset_ui"@.len() == 8);
    assert("go_to_main_menu"@.len() == 15);
    assert("toggle_command_palette"@.len() == 22);
    assert("clear_all_toasts"@.len() == 16);
    assert("undo"@.len() == 4);
    assert("redo"@.len() == 4);
    match a {
        Action::Quit => {
            assert(action_named(action_name(Action::Quit)) == Some(Action::Quit));
        },
        Action::NextFocus => {
            assert(action_named(action_name(Action::NextFocus)) == Some(Action::NextFocus));
        },
        Action::PrvFocus => {
            assert("prev_focus"@[0] != "next_focus"@[0]);
            assert(action_named(action_name(Action::PrvFocus)) == Some(Action::PrvFocus));
        },
        Action::OpenConfigMenu => {
            assert(action_named(action_name(Action::OpenConfigMenu)) == Some(Action::OpenConfigMenu));
        },
        Action::Up => {
            assert(action_named(action_name(Action::Up)) == Some(Action::Up));
        },
        Action::Down => {
            assert("down"@[0] != "quit"@[0]);
            assert(action_named(action_name(Action::Down)) == Some(Action::Down));
        },
        Action::Right => {
            assert(action_named(action_name(Action::Right)) == Some(Action::Right));
        },
        Action::Left => {
            assert("left"@[0] != "quit"@[0]);
            assert("left"@[0] != "down"@[0]);
            assert(action_named(action_name(Action::Left)) == Some(Action::Left));
        },
        Action::TakeUserInput => {
            assert(action_named(action_name(Action::TakeUserInput)) == Some(Action::TakeUserInput));
        },
        Action::StopUserInput => {
            assert("stop_user_input"@[0] != "take_user_input"@[0]);
            assert(action_named(action_name(Action::StopUserInput)) == Some(Action::StopUserInput));
        },
        Action::HideUiElement => {
            assert("hide_ui_element"@[0] != "take_user_input"@[0]);
            assert("hide_ui_element"@[0] != "stop_user_input"@[0]);
            assert(action_named(action_name(Action::HideUiElement)) == Some(Action::HideUiElement));
        },
        Action::SaveState => {
            assert("save_state"@[0] != "next_focus"@[0]);
            assert("save_state"@[0] != "prev_focus"@[0]);
            assert(action_named(action_name(Action::SaveState)) == Some(Action::SaveState));
        },
        Action::NewBoard => {
            assert(action_named(action_name(Action::NewBoard)) == Some(Action::NewBoard));
        },
        Action::NewCard => {
            assert(action_named(action_name(Action::NewCard)) == Some(Action::NewCard));
        },
        Action::DeleteCard => {
            assert(action_named(action_name(Action::DeleteCard)) == Some(Action::DeleteCard));
        },
        Action::DeleteBoard => {
            assert(action_named(action_name(Action::DeleteBoard)) == Some(Action::DeleteBoard));
        },
        Action::ChangeCardStatusToCompleted => {
            assert(action_named(action_name(Action::ChangeCardStatusToCompleted)) == Some(Action::ChangeCardStatusToCompleted));
        },
        Action::ChangeCardStatusToActive => {
            assert(action_named(action_name(Action::ChangeCardStatusToActive)) == Some(Action::ChangeCardStatusToActive));
        },
        Action::ChangeCardStatusToStale => {
            assert(action_named(action_name(Action::ChangeCardStatusToStale)) == Some(Action::ChangeCardStatusToStale));
        },
        Action::ResetUI => {
            assert("reset_ui"@[0] != "new_card"@[0]);
            assert(action_named(action_name(Action::ResetUI)) == Some(Action::ResetUI));
        },
        Action::GoToMainMenu => {
            assert("go_to_main_menu"@[0] != "take_user_input"@[0]);
            assert("go_to_main_menu"@[0] != "stop_user_input"@[0]);
            assert("go_to_main_menu"@[0] != "hide_ui_element"@[0]);
            assert(action_named(action_name(Action::GoToMainMenu)) == Some(Action::GoToMainMenu));
        },
        Action::ToggleCommandPalette => {
            assert(action_named(action_name(Action::ToggleCommandPalette)) == Some(Action::ToggleCommandPalette));
        },
        Action::ClearAllToasts => {
            assert("clear_all_toasts"@[0] != "open_config_menu"@[0]);
            assert(action_named(action_name(Action::ClearAllToasts)) == Some(Action::ClearAllToasts));
        },
        Action::Undo => {
            assert("undo"@[0] != "quit"@[0]);
            assert("undo"@[0] != "down"@[0]);
            assert("undo"@[0] != "left"@[0]);
            assert(action_named(action_name(Action::Undo)) == Some(Action::Undo));
        },
        Action::Redo => {
            assert("redo"@[0] != "quit"@[0]);
            assert("redo"@[0] != "down"@[0]);
            assert("redo"@[0] != "left"@[0]);
            assert("redo"@[0] != "undo"@[0]);
            assert(action_named(action_name(Action::Redo)) == Some(Action::Redo));
        },
    }
}

impl Action {
    /// The action at position `i` of the priority order.
    pub fn from_index(i: usize) -> (r: Action)
        requires
            i < ACTION_COUNT,
        ensures
            r == action_at(i as int),
            action_index(r) == i,
    {
        match i {
            0 => Action::Quit,
            1 => Action::NextFocus,
            2 => Action::PrvFocus,
            3 => Action::OpenConfigMenu,
            4 => Action::Up,
            5 => Action::Down,
            6 => Action::Right,
            7 => Action::Left,
            8 => Action::TakeUserInput,
            9 => Action::StopUserInput,
            10 => Action::HideUiElement,
            11 => Action::SaveState,
            12 => Action::NewBoard,
            13 => Action::NewCard,
            14 => Action::DeleteCard,
            15 => Action::DeleteBoard,
            16 => Action::ChangeCardStatusToCompleted,
            17 => Action::ChangeCardStatusToActive,
            18 => Action::ChangeCardStatusToStale,
            19 => Action::ResetUI,
            20 => Action::GoToMainMenu,
            21 => Action::ToggleCommandPalette,
            22 => Action::ClearAllToasts,
            23 => Action::Undo,
            _ => Action::Redo,
        }
    }

    /// The position of this action in the priority order.
    pub fn index(&self) -> (r: usize)
        ensures
            r == action_index(*self),
            r < ACTION_COUNT,
    {
        let mut i: usize = 0;
        while i < ACTION_COUNT
            invariant
                forall|j: int| 0 <= j < i ==> action_at(j) != *self,
            decreases ACTION_COUNT - i,
        {
            if Action::from_index(i) == *self {
                return i;
            }
            i = i + 1;
        }
        proof {
            lemma_action_order(*self, 0);
            assert(action_at(action_index(*self)) == *self);
        }
        0
    }

    /// The stable identifier of this action.
    pub fn name(&self) -> (r: &'static str)
        ensures
            r@ == action_name(*self),
    {
        match self {
            Action::Quit => "quit",
            Action::NextFocus => "next_focus",
            Action::PrvFocus => "prev_focus",
            Action::OpenConfigMenu => "open_config_menu",
            Action::Up => "up",
            Action::Down => "down",
            Action::Right => "right",
            Action::Left => "left",
            Action::TakeUserInput => "take_user_input",
            Action::StopUserInput => "stop_user_input",
            Action::HideUiElement => "hide_ui_element",
            Action::SaveState => "save_state",
            Action::NewBoard => "new_board",
            Action::NewCard => "new_card",
            Action::DeleteCard => "delete_card",
            Action::DeleteBoard => "delete_board",
            Action::ChangeCardStatusToCompleted => "change_card_status_to_completed",
            Action::ChangeCardStatusToActive => "change_card_status_to_active",
            Action::ChangeCardStatusToStale => "change_card_status_to_stale",
            Action::ResetUI => "reset_ui",
            Action::GoToMainMenu => "go_to_main_menu",
            Action::ToggleCommandPalette => "toggle_command_palette",
            Action::ClearAllToasts => "clear_all_toasts",
            Action::Undo => "undo",
            Action::Redo => "redo",
        }
    }

    /// The action with the identifier `s`, if any.
    pub fn from_name(s: &str) -> (r: Option<Action>)
        ensures
            r == action_named(s@),
    {
        if str_equal(s, "quit") {
            Some(Action::Quit)
        } else if str_equal(s, "next_focus") {
            Some(Action::NextFocus)
        } else if str_equal(s, "prev_focus") {
            Some(Action::PrvFocus)
        } else if str_equal(s, "open_config_menu") {
            Some(Action::OpenConfigMenu)
        } else if str_equal(s, "up") {
            Some(Action::Up)
        } else if str_equal(s, "down") {
            Some(Action::Down)
        } else if str_equal(s, "right") {
            Some(Action::Right)
        } else if str_equal(s, "left") {
            Some(Action::Left)
        } else if str_equal(s, "take_user_input") {
            Some(Action::TakeUserInput)
        } else if str_equal(s, "stop_user_input") {
            Some(Action::StopUserInput)
        } else if str_equal(s, "hide_ui_element") {
            Some(Action::HideUiElement)
        } else if str_equal(s, "save_state") {
            Some(Action::SaveState)
        } else if str_equal(s, "new_board") {
            Some(Action::NewBoard)
        } else if str_equal(s, "new_card") {
            Some(Action::NewCard)
        } else if str_equal(s, "delete_card") {
            Some(Action::DeleteCard)
        } else if str_equal(s, "delete_board") {
            Some(Action::DeleteBoard)
        } else if str_equal(s, "change_card_status_to_completed") {
            Some(Action::ChangeCardStatusToCompleted)
        } else if str_equal(s, "change_card_status_to_active") {
            Some(Action::ChangeCardStatusToActive)
        } else if str_equal(s, "change_card_status_to_stale") {
            Some(Action::ChangeCardStatusToStale)
        } else if str_equal(s, "reset_ui") {
            Some(Action::ResetUI)
        } else if str_equal(s, "go_to_main_menu") {
            Some(Action::GoToMainMenu)
        } else if str_equal(s, "toggle_command_palette") {
            Some(Action::ToggleCommandPalette)
        } else if str_equal(s, "clear_all_toasts") {
            Some(Action::ClearAllToasts)
        } else if str_equal(s, "undo") {
            Some(Action::Undo)
        } else if str_equal(s, "redo") {
            Some(Action::Redo)
        } else {
            None
        }
    }

    /// The keys this action is bound to out of the box.
    pub fn default_keys(&self) -> (r: Vec<Key>)
        ensures
            r@ == default_keys(*self),
            r@.no_duplicates(),
    {
        match self {
            Action::Quit => vec![Key::Ctrl('c'), Key::Char('q')],
            Action::NextFocus => vec![Key::Tab],
            Action::PrvFocus => vec![Key::BackTab],
            Action::OpenConfigMenu => vec![Key::Char('c')],
            Action::Up => vec![Key::Up],
            Action::Down => vec![Key::Down],
            Action::Right => vec![Key::Right],
            Action::Left => vec![Key::Left],
            Action::TakeUserInput => vec![Key::Char('i')],
            Action::StopUserInput => vec![Key::Ins],
            Action::HideUiElement => vec![Key::Char('h')],
            Action::SaveState => vec![Key::Ctrl('s')],
            Action::NewBoard => vec![Key::Char('b')],
            Action::NewCard => vec![Key::Char('n')],
            Action::DeleteCard => vec![Key::Char('d')],
            Action::DeleteBoard => vec![Key::Char('D')],
            Action::ChangeCardStatusToCompleted => vec![Key::Char('1')],
            Action::ChangeCardStatusToActive => vec![Key::Char('2')],
            Action::ChangeCardStatusToStale => vec![Key::Char('3')],
            Action::ResetUI => vec![Key::Char('r')],
            Action::GoToMainMenu => vec![Key::Char('m')],
            Action::ToggleCommandPalette => vec![Key::Ctrl('p')],
            Action::ClearAllToasts => vec![Key::Char('t')],
            Action::Undo => vec![Key::Ctrl('z')],
            Action::Redo => vec![Key::Ctrl('y')],
        }
    }
}

} // verus!
