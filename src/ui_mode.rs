use vstd::prelude::*;

use crate::focus::{ring_next_n, ring_prev_n, Focus};
use crate::text::str_equal;

verus! {

/// A screen layout. Each layout exposes a fixed, ordered ring of focus targets.
#[derive(Clone, Copy, PartialEq, Eq, Structural, Debug, Hash)]
pub enum UiMode {
    Zen,
    TitleBody,
    BodyHelp,
    BodyLog,
    TitleBodyHelp,
    TitleBodyLog,
    TitleBodyHelpLog,
    BodyHelpLog,
    ConfigMenu,
    EditKeybindings,
    MainMenu,
    HelpMenu,
    LogsOnly,
    NewBoard,
    NewCard,
    LoadSave,
    CreateTheme,
    Login,
    SignUp,
    ResetPassword,
    LoadCloudSave,
}

/// The label of a layout in menus and help text.
pub open spec fn display_label(m: UiMode) -> Seq<char> {
    match m {
        UiMode::Zen => "Zen"@,
        UiMode::TitleBody => "Title and Body"@,
        UiMode::BodyHelp => "Body and Help"@,
        UiMode::BodyLog => "Body and Log"@,
        UiMode::TitleBodyHelp => "Title, Body and Help"@,
        UiMode::TitleBodyLog => "Title, Body and Log"@,
        UiMode::TitleBodyHelpLog => "Title, Body, Help and Log"@,
        UiMode::BodyHelpLog => "Body, Help and Log"@,
        UiMode::ConfigMenu => "Config"@,
        UiMode::EditKeybindings => "Edit Keybindings"@,
        UiMode::MainMenu => "Main Menu"@,
        UiMode::HelpMenu => "Help Menu"@,
        UiMode::LogsOnly => "Logs Only"@,
        UiMode::NewBoard => "New Board"@,
        UiMode::NewCard => "New Card"@,
        UiMode::LoadSave => "Load a Save (Local)"@,
        UiMode::CreateTheme => "Create Theme"@,
        UiMode::Login => "Login"@,
        UiMode::SignUp => "Sign Up"@,
        UiMode::ResetPassword => "Reset Password"@,
        UiMode::LoadCloudSave => "Load a Save (Cloud)"@,
    }
}

/// The layouts that can be chosen from a menu by their display label.
pub open spec fn menu_selectable(m: UiMode) -> bool {
    match m {
        UiMode::Zen => true,
        UiMode::TitleBody => true,
        UiMode::BodyHelp => true,
        UiMode::BodyLog => true,
        UiMode::TitleBodyHelp => true,
        UiMode::TitleBodyLog => true,
        UiMode::TitleBodyHelpLog => true,
        UiMode::BodyHelpLog => true,
        UiMode::ConfigMenu => true,
        UiMode::EditKeybindings => true,
        UiMode::MainMenu => true,
        UiMode::HelpMenu => true,
        UiMode::LogsOnly => true,
        UiMode::NewBoard => true,
        UiMode::NewCard => true,
        UiMode::LoadSave => true,
        UiMode::CreateTheme => true,
        _ => false,
    }
}

/// `r` is what reading the menu text `s` gives: the selectable layout whose
/// display label is `s`, or nothing when there is none.
pub open spec fn parses_from_menu(s: Seq<char>, r: Option<UiMode>) -> bool {
    match r {
        Some(m) => menu_selectable(m) && display_label(m) == s,
        None => forall|m: UiMode| menu_selectable(m) ==> display_label(m) != s,
    }
}

/// The name under which a layout is stored in the configuration.
pub open spec fn persisted_label(m: UiMode) -> Option<Seq<char>> {
    match m {
        UiMode::Zen => Some("Zen"@),
        UiMode::TitleBody => Some("TitleBody"@),
        UiMode::BodyHelp => Some("BodyHelp"@),
        UiMode::BodyLog => Some("BodyLog"@),
        UiMode::TitleBodyHelp => Some("TitleBodyHelp"@),
        UiMode::TitleBodyLog => Some("TitleBodyLog"@),
        UiMode::TitleBodyHelpLog => Some("TitleBodyHelpLog"@),
        UiMode::BodyHelpLog => Some("BodyHelpLog"@),
        UiMode::ConfigMenu => Some("ConfigMenu"@),
        UiMode::EditKeybindings => Some("EditKeybindings"@),
        UiMode::MainMenu => Some("MainMenu"@),
        UiMode::HelpMenu => Some("HelpMenu"@),
        UiMode::LogsOnly => Some("LogsOnly"@),
        UiMode::NewBoard => Some("NewBoard"@),
        UiMode::NewCard => Some("NewCard"@),
        UiMode::LoadSave => Some("LoadSave"@),
        UiMode::CreateTheme => Some("CreateTheme"@),
        _ => None,
    }
}

/// The layout stored under a legacy numeric code; unknown codes fall back to
/// the title-and-body layout.
pub open spec fn legacy_mode(n: u8) -> UiMode {
    match n {
        1 => UiMode::Zen,
        2 => UiMode::TitleBody,
        3 => UiMode::BodyHelp,
        4 => UiMode::BodyLog,
        5 => UiMode::TitleBodyHelp,
        6 => UiMode::TitleBodyLog,
        7 => UiMode::BodyHelpLog,
        8 => UiMode::TitleBodyHelpLog,
        9 => UiMode::LogsOnly,
        _ => UiMode::TitleBody,
    }
}

/// The focus ring of a layout, in navigation order.
pub open spec fn focus_targets(m: UiMode) -> Seq<Focus> {
    match m {
        UiMode::Zen => seq![Focus::Body],
        UiMode::TitleBody => seq![Focus::Title, Focus::Body],
        UiMode::BodyHelp => seq![Focus::Body, Focus::Help],
        UiMode::BodyLog => seq![Focus::Body, Focus::Log],
        UiMode::TitleBodyHelp => seq![Focus::Title, Focus::Body, Focus::Help],
        UiMode::TitleBodyLog => seq![Focus::Title, Focus::Body, Focus::Log],
        UiMode::TitleBodyHelpLog => seq![Focus::Title, Focus::Body, Focus::Help, Focus::Log],
        UiMode::BodyHelpLog => seq![Focus::Body, Focus::Help, Focus::Log],
        UiMode::ConfigMenu => seq![Focus::ConfigTable, Focus::SubmitButton, Focus::ExtraFocus],
        UiMode::EditKeybindings => seq![Focus::EditKeybindingsTable, Focus::SubmitButton],
        UiMode::MainMenu => seq![Focus::MainMenu, Focus::MainMenuHelp, Focus::Log],
        UiMode::HelpMenu => seq![Focus::Help, Focus::Log],
        UiMode::LogsOnly => seq![Focus::Log],
        UiMode::NewBoard => seq![Focus::NewBoardName, Focus::NewBoardDescription, Focus::SubmitButton],
        UiMode::NewCard => seq![Focus::CardName, Focus::CardDescription, Focus::CardDueDate, Focus::SubmitButton],
        UiMode::LoadSave => seq![Focus::Body],
        UiMode::CreateTheme => seq![Focus::ThemeEditor, Focus::SubmitButton, Focus::ExtraFocus],
        UiMode::Login => seq![Focus::Title, Focus::EmailIDField, Focus::PasswordField, Focus::ExtraFocus, Focus::SubmitButton],
        UiMode::SignUp => seq![Focus::Title, Focus::EmailIDField, Focus::PasswordField, Focus::ConfirmPasswordField, Focus::ExtraFocus, Focus::SubmitButton],
        UiMode::ResetPassword => seq![Focus::Title, Focus::EmailIDField, Focus::SendResetPasswordLinkButton, Focus::ResetPasswordLinkField, Focus::PasswordField, Focus::ConfirmPasswordField, Focus::ExtraFocus, Focus::SubmitButton],
        UiMode::LoadCloudSave => seq![Focus::Body],
    }
}

/// The layouts that the view selector cycles through.
pub open spec fn view_mode_list() -> Seq<UiMode> {
    seq![UiMode::Zen, UiMode::TitleBody, UiMode::BodyHelp, UiMode::BodyLog, UiMode::TitleBodyHelp, UiMode::TitleBodyLog, UiMode::BodyHelpLog, UiMode::TitleBodyHelpLog]
}

/// Every layout has at least one focus target, and none twice.
pub proof fn lemma_targets_nonempty(m: UiMode)
    ensures
        focus_targets(m).len() > 0,
        focus_targets(m).no_duplicates(),
{
}

/// Within any layout, stepping forward, or backward, once per focus target
/// returns to the target that was focused.
pub proof fn lemma_mode_full_turn(m: UiMode, f: Focus)
    requires
        focus_targets(m).contains(f),
    ensures
        ring_next_n(f, focus_targets(m), focus_targets(m).len()) == f,
        ring_prev_n(f, focus_targets(m), focus_targets(m).len()) == f,
{
    lemma_targets_nonempty(m);
    crate::focus::lemma_next_full_turn(f, focus_targets(m));
    crate::focus::lemma_prev_full_turn(f, focus_targets(m));
}

/// No two layouts share a display label.
pub proof fn lemma_display_label_unique(m: UiMode)
    ensures
        forall|o: UiMode| display_label(o) == display_label(m) ==> o == m,
{
    reveal_strlit("Zen");
    reveal_strlit("Title and Body");
    reveal_strlit("Body and Help");
    reveal_strlit("Body and Log");
    reveal_strlit("Title, Body and Help");
    reveal_strlit("Title, Body and Log");
    reveal_strlit("Title, Body, Help and Log");
    reveal_strlit("Body, Help and Log");
    reveal_strlit("Config");
    reveal_strlit("Edit Keybindings");
    reveal_strlit("Main Menu");
    reveal_strlit("Help Menu");
    reveal_strlit("Logs Only");
    reveal_strlit("New Board");
    reveal_strlit("New Card");
    reveal_strlit("Load a Save (Local)");
    reveal_strlit("Create Theme");
    reveal_strlit("Login");
    reveal_strlit("Sign Up");
    reveal_strlit("Reset Password");
    reveal_strlit("Load a Save (Cloud)");
    assert("Zen"@.len() == 3);
    assert("Title and Body"@.len() == 14);
    assert("Body and Help"@.len() == 13);
    assert("Body and Log"@.len() == 12);
    assert("Title, Body and Help"@.len() == 20);
    assert("Title, Body and Log"@.len() == 19);
    assert("Title, Body, Help and Log"@.len() == 25);
    assert("Body, Help and Log"@.len() == 18);
    assert("Config"@.len() == 6);
    assert("Edit Keybindings"@.len() == 16);
    assert("Main Menu"@.len() == 9);
    assert("Help Menu"@.len() == 9);
    assert("Logs Only"@.len() == 9);
    assert("New Board"@.len() == 9);
    assert("New Card"@.len() == 8);
    assert("Load a Save (Local)"@.len() == 19);
    assert("Create Theme"@.len() == 12);
    assert("Login"@.len() == 5);
    assert("Sign Up"@.len() == 7);
    assert("Reset Password"@.len() == 14);
    assert("Load a Save (Cloud)"@.len() == 19);
    match m {
        UiMode::Zen => {
            assert(forall|o: UiMode| display_label(o) == "Zen"@ ==> o == UiMode::Zen);
        },
        UiMode::TitleBody => {
            assert("Title and Body"@[0] != "Reset Password"@[0]);
            assert(forall|o: UiMode| display_label(o) == "Title and Body"@ ==> o == UiMode::TitleBody);
        },
        UiMode::BodyHelp => {
            assert(forall|o: UiMode| display_label(o) == "Body and Help"@ ==> o == UiMode::BodyHelp);
        },
        UiMode::BodyLog => {
            assert("Body and Log"@[0] != "Create Theme"@[0]);
            assert(forall|o: UiMode| display_label(o) == "Body and Log"@ ==> o == UiMode::BodyLog);
        },
        UiMode::TitleBodyHelp => {
            assert(forall|o: UiMode| display_label(o) == "Title, Body and Help"@ ==> o == UiMode::TitleBodyHelp);
        },
        UiMode::TitleBodyLog => {
            assert("Title, Body and Log"@[0] != "Load a Save (Local)"@[0]);
            assert("Title, Body and Log"@[0] != "Load a Save (Cloud)"@[0]);
            assert(forall|o: UiMode| display_label(o) == "Title, Body and Log"@ ==> o == UiMode::TitleBodyLog);
        },
        UiMode::TitleBodyHelpLog => {
            assert(forall|o: UiMode| display_label(o) == "Title, Body, Help and Log"@ ==> o == UiMode::TitleBodyHelpLog);
        },
        UiMode::BodyHelpLog => {
            assert(forall|o: UiMode| display_label(o) == "Body, Help and Log"@ ==> o == UiMode::BodyHelpLog);
        },
        UiMode::ConfigMenu => {
            assert(forall|o: UiMode| display_label(o) == "Config"@ ==> o == UiMode::ConfigMenu);
        },
        UiMode::EditKeybindings => {
            assert(forall|o: UiMode| display_label(o) == "Edit Keybindings"@ ==> o == UiMode::EditKeybindings);
        },
        UiMode::MainMenu => {
            assert("Main Menu"@[0] != "Help Menu"@[0]);
            assert("Main Menu"@[0] != "Logs Only"@[0]);
            assert("Main Menu"@[0] != "New Board"@[0]);
            assert(forall|o: UiMode| display_label(o) == "Main Menu"@ ==> o == UiMode::MainMenu);
        },
        UiMode::HelpMenu => {
            assert("Help Menu"@[0] != "Main Menu"@[0]);
            assert("Help Menu"@[0] != "Logs Only"@[0]);
            assert("Help Menu"@[0] != "New Board"@[0]);
            assert(forall|o: UiMode| display_label(o) == "Help Menu"@ ==> o == UiMode::HelpMenu);
        },
        UiMode::LogsOnly => {
            assert("Logs Only"@[0] != "Main Menu"@[0]);
            assert("Logs Only"@[0] != "Help Menu"@[0]);
            assert("Logs Only"@[0] != "New Board"@[0]);
            assert(forall|o: UiMode| display_label(o) == "Logs Only"@ ==> o == UiMode::LogsOnly);
        },
        UiMode::NewBoard => {
            assert("New Board"@[0] != "Main Menu"@[0]);
            assert("New Board"@[0] != "Help Menu"@[0]);
            assert("New Board"@[0] != "Logs Only"@[0]);
            assert(forall|o: UiMode| display_label(o) == "New Board"@ ==> o == UiMode::NewBoard);
        },
        UiMode::NewCard => {
            assert(forall|o: UiMode| display_label(o) == "New Card"@ ==> o == UiMode::NewCard);
        },
        UiMode::LoadSave => {
            assert("Load a Save (Local)"@[0] != "Title, Body and Log"@[0]);
            assert("Load a Save (Local)"@[13] != "Load a Save (Cloud)"@[13]);
            assert(forall|o: UiMode| display_label(o) == "Load a Save (Local)"@ ==> o == UiMode::LoadSave);
        },
        UiMode::CreateTheme => {
            assert("Create Theme"@[0] != "Body and Log"@[0]);
            assert(forall|o: UiMode| display_label(o) == "Create Theme"@ ==> o == UiMode::CreateTheme);
        },
        UiMode::Login => {
            assert(forall|o: UiMode| display_label(o) == "Login"@ ==> o == UiMode::Login);
        },
        UiMode::SignUp => {
            assert(forall|o: UiMode| display_label(o) == "Sign Up"@ ==> o == UiMode::SignUp);
        },
        UiMode::ResetPassword => {
            assert("Reset Password"@[0] != "Title and Body"@[0]);
            assert(forall|o: UiMode| display_label(o) == "Reset Password"@ ==> o == UiMode::ResetPassword);
        },
        UiMode::LoadCloudSave => {
            assert("Load a Save (Cloud)"@[0] != "Title, Body and Log"@[0]);
            assert("Load a Save (Cloud)"@[13] != "Load a Save (Local)"@[13]);
            assert(forall|o: UiMode| display_label(o) == "Load a Save (Cloud)"@ ==> o == UiMode::LoadCloudSave);
        },
    }
}

/// Reading back the display label of any layout that a menu can select gives
/// that layout.
pub proof fn lemma_display_round_trip(m: UiMode, r: Option<UiMode>)
    requires
        menu_selectable(m),
        parses_from_menu(display_label(m), r),
    ensures
        r == Some(m),
{
    lemma_display_label_unique(m);
}

/// No two layouts are stored under the same name, so reading back the stored
/// name of a layout gives that layout.
pub proof fn lemma_persisted_label_unique(m: UiMode)
    requires
        persisted_label(m).is_some(),
    ensures
        forall|o: UiMode| persisted_label(o) == persisted_label(m) <==> o == m,
{
    reveal_strlit("Zen");
    reveal_strlit("TitleBody");
    reveal_strlit("BodyHelp");
    reveal_strlit("BodyLog");
    reveal_strlit("TitleBodyHelp");
    reveal_strlit("TitleBodyLog");
    reveal_strlit("TitleBodyHelpLog");
    reveal_strlit("BodyHelpLog");
    reveal_strlit("ConfigMenu");
    reveal_strlit("EditKeybindings");
    reveal_strlit("MainMenu");
    reveal_strlit("HelpMenu");
    reveal_strlit("LogsOnly");
    reveal_strlit("NewBoard");
    reveal_strlit("NewCard");
    reveal_strlit("LoadSave");
    reveal_strlit("CreateTheme");
    assert("Zen"@.len() == 3);
    assert("TitleBody"@.len() == 9);
    assert("BodyHelp"@.len() == 8);
    assert("BodyLog"@.len() == 7);
    assert("TitleBodyHelp"@.len() == 13);
    assert("TitleBodyLog"@.len() == 12);
    assert("TitleBodyHelpLog"@.len() == 16);
    assert("BodyHelpLog"@.len() == 11);
    assert("ConfigMenu"@.len() == 10);
    assert("EditKeybindings"@.len() == 15);
    assert("MainMenu"@.len() == 8);
    assert("HelpMenu"@.len() == 8);
    assert("LogsOnly"@.len() == 8);
    assert("NewBoard"@.len() == 8);
    assert("NewCard"@.len() == 7);
    assert("LoadSave"@.len() == 8);
    assert("CreateTheme"@.len() == 11);
    match m {
        UiMode::Zen => {
            assert(forall|o: UiMode| persisted_label(o) == Some("Zen"@) ==> o == UiMode::Zen);
        },
        UiMode::TitleBody => {
            assert(forall|o: UiMode| persisted_label(o) == Some("TitleBody"@) ==> o == UiMode::TitleBody);
        },
        UiMode::BodyHelp => {
            assert("BodyHelp"@[0] != "MainMenu"@[0]);
            assert("BodyHelp"@[0] != "HelpMenu"@[0]);
            assert("BodyHelp"@[0] != "LogsOnly"@[0]);
            assert("BodyHelp"@[0] != "NewBoard"@[0]);
            assert("BodyHelp"@[0] != "LoadSave"@[0]);
            assert(forall|o: UiMode| persisted_label(o) == Some("BodyHelp"@) ==> o == UiMode::BodyHelp);
        },
        UiMode::BodyLog => {
            assert("BodyLog"@[0] != "NewCard"@[0]);
            assert(forall|o: UiMode| persisted_label(o) == Some("BodyLog"@) ==> o == UiMode::BodyLog);
        },
        UiMode::TitleBodyHelp => {
            assert(forall|o: UiMode| persisted_label(o) == Some("TitleBodyHelp"@) ==> o == UiMode::TitleBodyHelp);
        },
        UiMode::TitleBodyLog => {
            assert(forall|o: UiMode| persisted_label(o) == Some("TitleBodyLog"@) ==> o == UiMode::TitleBodyLog);
        },
        UiMode::TitleBodyHelpLog => {
            assert(forall|o: UiMode| persisted_label(o) == Some("TitleBodyHelpLog"@) ==> o == UiMode::TitleBodyHelpLog);
        },
        UiMode::BodyHelpLog => {
            assert("BodyHelpLog"@[0] != "CreateTheme"@[0]);
            assert(forall|o: UiMode| persisted_label(o) == Some("BodyHelpLog"@) ==> o == UiMode::BodyHelpLog);
        },
        UiMode::ConfigMenu => {
            assert(forall|o: UiMode| persisted_label(o) == Some("ConfigMenu"@) ==> o == UiMode::ConfigMenu);
        },
        UiMode::EditKeybindings => {
            assert(forall|o: UiMode| persisted_label(o) == Some("EditKeybindings"@) ==> o == UiMode::EditKeybindings);
        },
        UiMode::MainMenu => {
            assert("MainMenu"@[0] != "BodyHelp"@[0]);
            assert("MainMenu"@[0] != "HelpMenu"@[0]);
            assert("MainMenu"@[0] != "LogsOnly"@[0]);
            assert("MainMenu"@[0] != "NewBoard"@[0]);
            assert("MainMenu"@[0] != "LoadSave"@[0]);
            assert(forall|o: UiMode| persisted_label(o) == Some("MainMenu"@) ==> o == UiMode::MainMenu);
        },
        UiMode::HelpMenu => {
            assert("HelpMenu"@[0] != "BodyHelp"@[0]);
            assert("HelpMenu"@[0] != "MainMenu"@[0]);
            assert("HelpMenu"@[0] != "LogsOnly"@[0]);
            assert("HelpMenu"@[0] != "NewBoard"@[0]);
            assert("HelpMenu"@[0] != "LoadSave"@[0]);
            assert(forall|o: UiMode| persisted_label(o) == Some("HelpMenu"@) ==> o == UiMode::HelpMenu);
        },
        UiMode::LogsOnly => {
            assert("LogsOnly"@[0] != "BodyHelp"@[0]);
            assert("LogsOnly"@[0] != "MainMenu"@[0]);
            assert("LogsOnly"@[0] != "HelpMenu"@[0]);
            assert("LogsOnly"@[0] != "NewBoard"@[0]);
            assert("LogsOnly"@[2] != "LoadSave"@[2]);
            assert(forall|o: UiMode| persisted_label(o) == Some("LogsOnly"@) ==> o == UiMode::LogsOnly);
        },
        UiMode::NewBoard => {
            assert("NewBoard"@[0] != "BodyHelp"@[0]);
            assert("NewBoard"@[0] != "MainMenu"@[0]);
            assert("NewBoard"@[0] != "HelpMenu"@[0]);
            assert("NewBoard"@[0] != "LogsOnly"@[0]);
            assert("NewBoard"@[0] != "LoadSave"@[0]);
            assert(forall|o: UiMode| persisted_label(o) == Some("NewBoard"@) ==> o == UiMode::NewBoard);
        },
        UiMode::NewCard => {
            assert("NewCard"@[0] != "BodyLog"@[0]);
            assert(forall|o: UiMode| persisted_label(o) == Some("NewCard"@) ==> o == UiMode::NewCard);
        },
        UiMode::LoadSave => {
            assert("LoadSave"@[0] != "BodyHelp"@[0]);
            assert("LoadSave"@[0] != "MainMenu"@[0]);
            assert("LoadSave"@[0] != "HelpMenu"@[0]);
            assert("LoadSave"@[2] != "LogsOnly"@[2]);
            assert("LoadSave"@[0] != "NewBoard"@[0]);
            assert(forall|o: UiMode| persisted_label(o) == Some("LoadSave"@) ==> o == UiMode::LoadSave);
        },
        UiMode::CreateTheme => {
            assert("CreateTheme"@[0] != "BodyHelpLog"@[0]);
            assert(forall|o: UiMode| persisted_label(o) == Some("CreateTheme"@) ==> o == UiMode::CreateTheme);
        },
        _ => {},
    }
}

impl UiMode {
    /// The layout whose display label is `s`, among those a menu can select.
    pub fn from_string(s: &str) -> (r: Option<UiMode>)
        ensures
            parses_from_menu(s@, r),
    {
        if str_equal(s, "Zen") {
            Some(UiMode::Zen)
        } else if str_equal(s, "Title and Body") {
            Some(UiMode::TitleBody)
        } else if str_equal(s, "Body and Help") {
            Some(UiMode::BodyHelp)
        } else if str_equal(s, "Body and Log") {
            Some(UiMode::BodyLog)
        } else if str_equal(s, "Title, Body and Help") {
            Some(UiMode::TitleBodyHelp)
        } else if str_equal(s, "Title, Body and Log") {
            Some(UiMode::TitleBodyLog)
        } else if str_equal(s, "Body, Help and Log") {
            Some(UiMode::BodyHelpLog)
        } else if str_equal(s, "Title, Body, Help and Log") {
            Some(UiMode::TitleBodyHelpLog)
        } else if str_equal(s, "Config") {
            Some(UiMode::ConfigMenu)
        } else if str_equal(s, "Edit Keybindings") {
            Some(UiMode::EditKeybindings)
        } else if str_equal(s, "Main Menu") {
            Some(UiMode::MainMenu)
        } else if str_equal(s, "Help Menu") {
            Some(UiMode::HelpMenu)
        } else if str_equal(s, "Logs Only") {
            Some(UiMode::LogsOnly)
        } else if str_equal(s, "New Board") {
            Some(UiMode::NewBoard)
        } else if str_equal(s, "New Card") {
            Some(UiMode::NewCard)
        } else if str_equal(s, "Load a Save (Local)") {
            Some(UiMode::LoadSave)
        } else if str_equal(s, "Create Theme") {
            Some(UiMode::CreateTheme)
        } else {
            None
        }
    }

    /// The layout stored under a configuration name.
    pub fn from_json_string(s: &str) -> (r: Option<UiMode>)
        ensures
            match r {
                Some(m) => persisted_label(m) == Some(s@),
                None => forall|m: UiMode| persisted_label(m) != Some(s@),
            },
    {
        if str_equal(s, "Zen") {
            Some(UiMode::Zen)
        } else if str_equal(s, "TitleBody") {
            Some(UiMode::TitleBody)
        } else if str_equal(s, "BodyHelp") {
            Some(UiMode::BodyHelp)
        } else if str_equal(s, "BodyLog") {
            Some(UiMode::BodyLog)
        } else if str_equal(s, "TitleBodyHelp") {
            Some(UiMode::TitleBodyHelp)
        } else if str_equal(s, "TitleBodyLog") {
            Some(UiMode::TitleBodyLog)
        } else if str_equal(s, "BodyHelpLog") {
            Some(UiMode::BodyHelpLog)
        } else if str_equal(s, "TitleBodyHelpLog") {
            Some(UiMode::TitleBodyHelpLog)
        } else if str_equal(s, "ConfigMenu") {
            Some(UiMode::ConfigMenu)
        } else if str_equal(s, "EditKeybindings") {
            Some(UiMode::EditKeybindings)
        } else if str_equal(s, "MainMenu") {
            Some(UiMode::MainMenu)
        } else if str_equal(s, "HelpMenu") {
            Some(UiMode::HelpMenu)
        } else if str_equal(s, "LogsOnly") {
            Some(UiMode::LogsOnly)
        } else if str_equal(s, "NewBoard") {
            Some(UiMode::NewBoard)
        } else if str_equal(s, "NewCard") {
            Some(UiMode::NewCard)
        } else if str_equal(s, "LoadSave") {
            Some(UiMode::LoadSave)
        } else if str_equal(s, "CreateTheme") {
            Some(UiMode::CreateTheme)
        } else {
            None
        }
    }

    /// The layout stored under a legacy numeric code.
    pub fn from_number(n: u8) -> (r: UiMode)
        ensures
            r == legacy_mode(n),
    {
        match n {
            1 => UiMode::Zen,
            2 => UiMode::TitleBody,
            3 => UiMode::BodyHelp,
            4 => UiMode::BodyLog,
            5 => UiMode::TitleBodyHelp,
            6 => UiMode::TitleBodyLog,
            7 => UiMode::BodyHelpLog,
            8 => UiMode::TitleBodyHelpLog,
            9 => UiMode::LogsOnly,
            _ => UiMode::TitleBody,
        }
    }

    /// The focus ring of this layout.
    pub fn get_available_targets(&self) -> (r: Vec<Focus>)
        ensures
            r@ == focus_targets(*self),
            r@.len() > 0,
    {
        match self {
            UiMode::Zen => vec![Focus::Body],
            UiMode::TitleBody => vec![Focus::Title, Focus::Body],
            UiMode::BodyHelp => vec![Focus::Body, Focus::Help],
            UiMode::BodyLog => vec![Focus::Body, Focus::Log],
            UiMode::TitleBodyHelp => vec![Focus::Title, Focus::Body, Focus::Help],
            UiMode::TitleBodyLog => vec![Focus::Title, Focus::Body, Focus::Log],
            UiMode::TitleBodyHelpLog => vec![Focus::Title, Focus::Body, Focus::Help, Focus::Log],
            UiMode::BodyHelpLog => vec![Focus::Body, Focus::Help, Focus::Log],
            UiMode::ConfigMenu => vec![Focus::ConfigTable, Focus::SubmitButton, Focus::ExtraFocus],
            UiMode::EditKeybindings => vec![Focus::EditKeybindingsTable, Focus::SubmitButton],
            UiMode::MainMenu => vec![Focus::MainMenu, Focus::MainMenuHelp, Focus::Log],
            UiMode::HelpMenu => vec![Focus::Help, Focus::Log],
            UiMode::LogsOnly => vec![Focus::Log],
            UiMode::NewBoard => vec![Focus::NewBoardName, Focus::NewBoardDescription, Focus::SubmitButton],
            UiMode::NewCard => vec![Focus::CardName, Focus::CardDescription, Focus::CardDueDate, Focus::SubmitButton],
            UiMode::LoadSave => vec![Focus::Body],
            UiMode::CreateTheme => vec![Focus::ThemeEditor, Focus::SubmitButton, Focus::ExtraFocus],
            UiMode::Login => vec![Focus::Title, Focus::EmailIDField, Focus::PasswordField, Focus::ExtraFocus, Focus::SubmitButton],
            UiMode::SignUp => vec![Focus::Title, Focus::EmailIDField, Focus::PasswordField, Focus::ConfirmPasswordField, Focus::ExtraFocus, Focus::SubmitButton],
            UiMode::ResetPassword => vec![Focus::Title, Focus::EmailIDField, Focus::SendResetPasswordLinkButton, Focus::ResetPasswordLinkField, Focus::PasswordField, Focus::ConfirmPasswordField, Focus::ExtraFocus, Focus::SubmitButton],
            UiMode::LoadCloudSave => vec![Focus::Body],
        }
    }

    /// The label of this layout in menus and help text.
    pub fn to_display_str(&self) -> (r: &'static str)
        ensures
            r@ == display_label(*self),
    {
        match self {
            UiMode::Zen => "Zen",
            UiMode::TitleBody => "Title and Body",
            UiMode::BodyHelp => "Body and Help",
            UiMode::BodyLog => "Body and Log",
            UiMode::TitleBodyHelp => "Title, Body and Help",
            UiMode::TitleBodyLog => "Title, Body and Log",
            UiMode::TitleBodyHelpLog => "Title, Body, Help and Log",
            UiMode::BodyHelpLog => "Body, Help and Log",
            UiMode::ConfigMenu => "Config",
            UiMode::EditKeybindings => "Edit Keybindings",
            UiMode::MainMenu => "Main Menu",
            UiMode::HelpMenu => "Help Menu",
            UiMode::LogsOnly => "Logs Only",
            UiMode::NewBoard => "New Board",
            UiMode::NewCard => "New Card",
            UiMode::LoadSave => "Load a Save (Local)",
            UiMode::CreateTheme => "Create Theme",
            UiMode::Login => "Login",
            UiMode::SignUp => "Sign Up",
            UiMode::ResetPassword => "Reset Password",
            UiMode::LoadCloudSave => "Load a Save (Cloud)",
        }
    }

    /// The label of this layout, as an owned string.
    pub fn to_display_string(&self) -> (r: String)
        ensures
            r@ == display_label(*self),
    {
        String::from_str(self.to_display_str())
    }

    /// The layouts that the view selector cycles through.
    pub fn view_modes() -> (r: Vec<UiMode>)
        ensures
            r@ == view_mode_list(),
    {
        vec![UiMode::Zen, UiMode::TitleBody, UiMode::BodyHelp, UiMode::BodyLog, UiMode::TitleBodyHelp, UiMode::TitleBodyLog, UiMode::BodyHelpLog, UiMode::TitleBodyHelpLog]
    }

    /// The labels of the view-selector layouts, in order.
    pub fn view_modes_as_string() -> (r: Vec<String>)
        ensures
            r@.len() == view_mode_list().len(),
            forall|i: int| 0 <= i < r@.len() ==> r@[i]@ == display_label(#[trigger] view_mode_list()[i]),
    {
        let modes = UiMode::view_modes();
        let mut out: Vec<String> = Vec::new();
        let mut i: usize = 0;
        while i < modes.len()
            invariant
                modes@ == view_mode_list(),
                i <= modes@.len(),
                out@.len() == i,
                forall|j: int| 0 <= j < i ==> out@[j]@ == display_label(#[trigger] view_mode_list()[j]),
            decreases modes@.len() - i,
        {
            out.push(modes[i].to_display_string());
            i = i + 1;
        }
        out
    }
}

impl Default for UiMode {
    fn default() -> (r: UiMode)
        ensures
            r == UiMode::Zen,
    {
        UiMode::Zen
    }
}

} // verus!
