use vstd::prelude::*;

use crate::text::str_equal;

verus! {

/// A focusable element of the screen: a pane, a form field, a button or a popup.
#[derive(Clone, Copy, PartialEq, Eq, Structural, Debug, Hash)]
pub enum Focus {
    Title,
    Body,
    Help,
    Log,
    ConfigTable,
    ConfigHelp,
    MainMenu,
    MainMenuHelp,
    NewBoardName,
    NewBoardDescription,
    CardName,
    CardDescription,
    CardDueDate,
    SubmitButton,
    EditKeybindingsTable,
    CloseButton,
    CommandPaletteCommand,
    CommandPaletteCard,
    CommandPaletteBoard,
    LoadSave,
    SelectDefaultView,
    ChangeUiModePopup,
    ChangeCardStatusPopup,
    EditGeneralConfigPopup,
    EditSpecificKeyBindingPopup,
    ThemeSelector,
    ThemeEditor,
    StyleEditorFG,
    StyleEditorBG,
    StyleEditorModifier,
    TextInput,
    CardPriority,
    CardStatus,
    CardTags,
    CardComments,
    ChangeCardPriorityPopup,
    ChangeDateFormatPopup,
    FilterByTagPopup,
    NoFocus,
    ExtraFocus,
    EmailIDField,
    PasswordField,
    ConfirmPasswordField,
    SendResetPasswordLinkButton,
    ResetPasswordLinkField,
}

/// The label under which a focus target is shown and parsed.
pub open spec fn focus_label(f: Focus) -> Seq<char> {
    match f {
        Focus::Title => "Title"@,
        Focus::Body => "Body"@,
        Focus::Help => "Help"@,
        Focus::Log => "Log"@,
        Focus::ConfigTable => "Config"@,
        Focus::ConfigHelp => "Config Help"@,
        Focus::MainMenu => "Main Menu"@,
        Focus::MainMenuHelp => "Main Menu Help"@,
        Focus::NewBoardName => "New Board Name"@,
        Focus::NewBoardDescription => "New Board Description"@,
        Focus::CardName => "New Card Name"@,
        Focus::CardDescription => "Card Description"@,
        Focus::CardDueDate => "Card Due Date"@,
        Focus::SubmitButton => "Submit Button"@,
        Focus::EditKeybindingsTable => "Edit Keybindings Table"@,
        Focus::CloseButton => "Close Button"@,
        Focus::CommandPaletteCommand => "Command Palette Command"@,
        Focus::CommandPaletteCard => "Command Palette Card"@,
        Focus::CommandPaletteBoard => "Command Palette Board"@,
        Focus::LoadSave => "Load Save"@,
        Focus::SelectDefaultView => "Select Default View"@,
        Focus::ChangeUiModePopup => "Change Ui Mode Popup"@,
        Focus::ChangeCardStatusPopup => "Change Card Status Popup"@,
        Focus::EditGeneralConfigPopup => "Edit General Config Popup"@,
        Focus::EditSpecificKeyBindingPopup => "Edit Specific Key Binding Popup"@,
        Focus::ThemeSelector => "Theme Selector"@,
        Focus::ThemeEditor => "Theme Editor"@,
        Focus::StyleEditorFG => "Theme Editor FG"@,
        Focus::StyleEditorBG => "Theme Editor BG"@,
        Focus::StyleEditorModifier => "Theme Editor Modifier"@,
        Focus::TextInput => "Text Input"@,
        Focus::CardPriority => "Card Priority"@,
        Focus::CardStatus => "Card Status"@,
        Focus::CardTags => "Card Tags"@,
        Focus::CardComments => "Card Comments"@,
        Focus::ChangeCardPriorityPopup => "Change Card Priority Popup"@,
        Focus::ChangeDateFormatPopup => "Change Date Format Popup"@,
        Focus::FilterByTagPopup => "Filter By Tag Popup"@,
        Focus::NoFocus => "No Focus"@,
        Focus::ExtraFocus => "Extra Focus"@,
        Focus::EmailIDField => "Email ID Field"@,
        Focus::PasswordField => "Password Field"@,
        Focus::ConfirmPasswordField => "Confirm Password Field"@,
        Focus::SendResetPasswordLinkButton => "Send Reset Password Link Button"@,
        Focus::ResetPasswordLinkField => "OTP Field"@,
    }
}

/// No two focus targets share a label, so reading back the label of a target
/// gives that target.
pub proof fn lemma_focus_label_unique(f: Focus)
    ensures
        forall|o: Focus| focus_label(o) == focus_label(f) ==> o == f,
{
    reveal_strlit("Title");
    reveal_strlit("Body");
    reveal_strlit("Help");
    reveal_strlit("Log");
    reveal_strlit("Config");
    reveal_strlit("Config Help");
    reveal_strlit("Main Menu");
    reveal_strlit("Main Menu Help");
    reveal_strlit("New Board Name");
    reveal_strlit("New Board Description");
    reveal_strlit("New Card Name");
    reveal_strlit("Card Description");
    reveal_strlit("Card Due Date");
    reveal_strlit("Submit Button");
    reveal_strlit("Edit Keybindings Table");
    reveal_strlit("Close Button");
    reveal_strlit("Command Palette Command");
    reveal_strlit("Command Palette Card");
    reveal_strlit("Command Palette Board");
    reveal_strlit("Load Save");
    reveal_strlit("Select Default View");
    reveal_strlit("Change Ui Mode Popup");
    reveal_strlit("Change Card Status Popup");
    reveal_strlit("Edit General Config Popup");
    reveal_strlit("Edit Specific Key Binding Popup");
    reveal_strlit("Theme Selector");
    reveal_strlit("Theme Editor");
    reveal_strlit("Theme Editor FG");
    reveal_strlit("Theme Editor BG");
    reveal_strlit("Theme Editor Modifier");
    reveal_strlit("Text Input");
    reveal_strlit("Card Priority");
    reveal_strlit("Card Status");
    reveal_strlit("Card Tags");
    reveal_strlit("Card Comments");
    reveal_strlit("Change Card Priority Popup");
    reveal_strlit("Change Date Format Popup");
    reveal_strlit("Filter By Tag Popup");
    reveal_strlit("No Focus");
    reveal_strlit("Extra Focus");
    reveal_strlit("Email ID Field");
    reveal_strlit("Password Field");
    reveal_strlit("Confirm Password Field");
    reveal_strlit("Send Reset Password Link Button");
    reveal_strlit("OTP Field");
    assert("Title"@.len() == 5);
    assert("Body"@.len() == 4);
    assert("Help"@.len() == 4);
    assert("Log"@.len() == 3);
    assert("Config"@.len() == 6);
    assert("Config Help"@.len() == 11);
    assert("Main Menu"@.len() == 9);
    assert("Main Menu Help"@.len() == 14);
    assert("New Board Name"@.len() == 14);
    assert("New Board Description"@.len() == 21);
    assert("New Card Name"@.len() == 13);
    assert("Card Description"@.len() == 16);
    assert("Card Due Date"@.len() == 13);
    assert("Submit Button"@.len() == 13);
    assert("Edit Keybindings Table"@.len() == 22);
    assert("Close Button"@.len() == 12);
    assert("Command Palette Command"@.len() == 23);
    assert("Command Palette Card"@.len() == 20);
    assert("Command Palette Board"@.len() == 21);
    assert("Load Save"@.len() == 9);
    assert("Select Default View"@.len() == 19);
    assert("Change Ui Mode Popup"@.len() == 20);
    assert("Change Card Status Popup"@.len() == 24);
    assert("Edit General Config Popup"@.len() == 25);
    assert("Edit Specific Key Binding Popup"@.len() == 31);
    assert("Theme Selector"@.len() == 14);
    assert("Theme Editor"@.len() == 12);
    assert("Theme Editor FG"@.len() == 15);
    assert("Theme Editor BG"@.len() == 15);
    assert("Theme Editor Modifier"@.len() == 21);
    assert("Text Input"@.len() == 10);
    assert("Card Priority"@.len() == 13);
    assert("Card Status"@.len() == 11);
    assert("Card Tags"@.len() == 9);
    assert("Card Comments"@.len() == 13);
    assert("Change Card Priority Popup"@.len() == 26);
    assert("Change Date Format Popup"@.len() == 24);
    assert("Filter By Tag Popup"@.len() == 19);
    assert("No Focus"@.len() == 8);
    assert("Extra Focus"@.len() == 11);
    assert("Email ID Field"@.len() == 14);
    assert("Password Field"@.len() == 14);
    assert("Confirm Password Field"@.len() == 22);
    assert("Send Reset Password Link Button"@.len() == 31);
    assert("OTP Field"@.len() == 9);
    match f {
        Focus::Title => {
            assert(forall|o: Focus| focus_label(o) == "Title"@ ==> o == Focus::Title);
        },
        Focus::Body => {
            assert("Body"@[0] != "Help"@[0]);
            assert(forall|o: Focus| focus_label(o) == "Body"@ ==> o == Focus::Body);
        },
        Focus::Help => {
            assert("Help"@[0] != "Body"@[0]);
            assert(forall|o: Focus| focus_label(o) == "Help"@ ==> o == Focus::Help);
        },
        Focus::Log => {
            assert(forall|o: Focus| focus_label(o) == "Log"@ ==> o == Focus::Log);
        },
        Focus::ConfigTable => {
            assert(forall|o: Focus| focus_label(o) == "Config"@ ==> o == Focus::ConfigTable);
        },
        Focus::ConfigHelp => {
            assert("Config Help"@[1] != "Card Status"@[1]);
            assert("Config Help"@[0] != "Extra Focus"@[0]);
            assert(forall|o: Focus| focus_label(o) == "Config Help"@ ==> o == Focus::ConfigHelp);
        },
        Focus::MainMenu => {
            assert("Main Menu"@[0] != "Load Save"@[0]);
            assert("Main Menu"@[0] != "Card Tags"@[0]);
            assert("Main Menu"@[0] != "OTP Field"@[0]);
            assert(forall|o: Focus| focus_label(o) == "Main Menu"@ ==> o == Focus::MainMenu);
        },
        Focus::MainMenuHelp => {
            assert("Main Menu Help"@[0] != "New Board Name"@[0]);
            assert("Main Menu Help"@[0] != "Theme Selector"@[0]);
            assert("Main Menu Help"@[0] != "Email ID Field"@[0]);
            assert("Main Menu Help"@[0] != "Password Field"@[0]);
            assert(forall|o: Focus| focus_label(o) == "Main Menu Help"@ ==> o == Focus::MainMenuHelp);
        },
        Focus::NewBoardName => {
            assert("New Board Name"@[0] != "Main Menu Help"@[0]);
            assert("New Board Name"@[0] != "Theme Selector"@[0]);
            assert("New Board Name"@[0] != "Email ID Field"@[0]);
            assert("New Board Name"@[0] != "Password Field"@[0]);
            assert(forall|o: Focus| focus_label(o) == "New Board Name"@ ==> o == Focus::NewBoardName);
        },
        Focus::NewBoardDescription => {
            assert("New Board Description"@[0] != "Command Palette Board"@[0]);
            assert("New Board Description"@[0] != "Theme Editor Modifier"@[0]);
            assert(forall|o: Focus| focus_label(o) == "New Board Description"@ ==> o == Focus::NewBoardDescription);
        },
        Focus::CardName => {
            assert("New Card Name"@[0] != "Card Due Date"@[0]);
            assert("New Card Name"@[0] != "Submit Button"@[0]);
            assert("New Card Name"@[0] != "Card Priority"@[0]);
            assert("New Card Name"@[0] != "Card Comments"@[0]);
            assert(forall|o: Focus| focus_label(o) == "New Card Name"@ ==> o == Focus::CardName);
        },
        Focus::CardDescription => {
            assert(forall|o: Focus| focus_label(o) == "Card Description"@ ==> o == Focus::CardDescription);
        },
        Focus::CardDueDate => {
            assert("Card Due Date"@[0] != "New Card Name"@[0]);
            assert("Card Due Date"@[0] != "Submit Button"@[0]);
            assert("Card Due Date"@[5] != "Card Priority"@[5]);
            assert("Card Due Date"@[5] != "Card Comments"@[5]);
            assert(forall|o: Focus| focus_label(o) == "Card Due Date"@ ==> o == Focus::CardDueDate);
        },
        Focus::SubmitButton => {
            assert("Submit Button"@[0] != "New Card Name"@[0]);
            assert("Submit Button"@[0] != "Card Due Date"@[0]);
            assert("Submit Button"@[0] != "Card Priority"@[0]);
            assert("Submit Button"@[0] != "Card Comments"@[0]);
            assert(forall|o: Focus| focus_label(o) == "Submit Button"@ ==> o == Focus::SubmitButton);
        },
        Focus::EditKeybindingsTable => {
            assert("Edit Keybindings Table"@[0] != "Confirm Password Field"@[0]);
            assert(forall|o: Focus| focus_label(o) == "Edit Keybindings Table"@ ==> o == Focus::EditKeybindingsTable);
        },
        Focus::CloseButton => {
            assert("Close Button"@[0] != "Theme Editor"@[0]);
            assert(forall|o: Focus| focus_label(o) == "Close Button"@ ==> o == Focus::CloseButton);
        },
        Focus::CommandPaletteCommand => {
            assert(forall|o: Focus| focus_label(o) == "Command Palette Command"@ ==> o == Focus::CommandPaletteCommand);
        },
        Focus::CommandPaletteCard => {
            assert("Command Palette Card"@[1] != "Change Ui Mode Popup"@[1]);
            assert(forall|o: Focus| focus_label(o) == "Command Palette Card"@ ==> o == Focus::CommandPaletteCard);
        },
        Focus::CommandPaletteBoard => {
            assert("Command Palette Board"@[0] != "New Board Description"@[0]);
            assert("Command Palette Board"@[0] != "Theme Editor Modifier"@[0]);
            assert(forall|o: Focus| focus_label(o) == "Command Palette Board"@ ==> o == Focus::CommandPaletteBoard);
        },
        Focus::LoadSave => {
            assert("Load Save"@[0] != "Main Menu"@[0]);
            assert("Load Save"@[0] != "Card Tags"@[0]);
            assert("Load Save"@[0] != "OTP Field"@[0]);
            assert(forall|o: Focus| focus_label(o) == "Load Save"@ ==> o == Focus::LoadSave);
        },
        Focus::SelectDefaultView => {
            assert("Select Default View"@[0] != "Filter By Tag Popup"@[0]);
            assert(forall|o: Focus| focus_label(o) == "Select Default View"@ ==> o == Focus::SelectDefaultView);
        },
        Focus::ChangeUiModePopup => {
            assert("Change Ui Mode Popup"@[1] != "Command Palette Card"@[1]);
            assert(forall|o: Focus| focus_label(o) == "Change Ui Mode Popup"@ ==> o == Focus::ChangeUiModePopup);
        },
        Focus::ChangeCardStatusPopup => {
            assert("Change Card Status Popup"@[7] != "Change Date Format Popup"@[7]);
            assert(forall|o: Focus| focus_label(o) == "Change Card Status Popup"@ ==> o == Focus::ChangeCardStatusPopup);
        },
        Focus::EditGeneralConfigPopup => {
            assert(forall|o: Focus| focus_label(o) == "Edit General Config Popup"@ ==> o == Focus::EditGeneralConfigPopup);
        },
        Focus::EditSpecificKeyBindingPopup => {
            assert("Edit Specific Key Binding Popup"@[0] != "Send Reset Password Link Button"@[0]);
            assert(forall|o: Focus| focus_label(o) == "Edit Specific Key Binding Popup"@ ==> o == Focus::EditSpecificKeyBindingPopup);
        },
        Focus::ThemeSelector => {
            assert("Theme Selector"@[0] != "Main Menu Help"@[0]);
            assert("Theme Selector"@[0] != "New Board Name"@[0]);
            assert("Theme Selector"@[0] != "Email ID Field"@[0]);
            assert("Theme Selector"@[0] != "Password Field"@[0]);
            assert(forall|o: Focus| focus_label(o) == "Theme Selector"@ ==> o == Focus::ThemeSelector);
        },
        Focus::ThemeEditor => {
            assert("Theme Editor"@[0] != "Close Button"@[0]);
            assert(forall|o: Focus| focus_label(o) == "Theme Editor"@ ==> o == Focus::ThemeEditor);
        },
        Focus::StyleEditorFG => {
            assert("Theme Editor FG"@[13] != "Theme Editor BG"@[13]);
            assert(forall|o: Focus| focus_label(o) == "Theme Editor FG"@ ==> o == Focus::StyleEditorFG);
        },
        Focus::StyleEditorBG => {
            assert("Theme Editor BG"@[13] != "Theme Editor FG"@[13]);
            assert(forall|o: Focus| focus_label(o) == "Theme Editor BG"@ ==> o == Focus::StyleEditorBG);
        },
        Focus::StyleEditorModifier => {
            assert("Theme Editor Modifier"@[0] != "New Board Description"@[0]);
            assert("Theme Editor Modifier"@[0] != "Command Palette Board"@[0]);
            assert(forall|o: Focus| focus_label(o) == "Theme Editor Modifier"@ ==> o == Focus::StyleEditorModifier);
        },
        Focus::TextInput => {
            assert(forall|o: Focus| focus_label(o) == "Text Input"@ ==> o == Focus::TextInput);
        },
        Focus::CardPriority => {
            assert("Card Priority"@[0] != "New Card Name"@[0]);
            assert("Card Priority"@[5] != "Card Due Date"@[5]);
            assert("Card Priority"@[0] != "Submit Button"@[0]);
            assert("Card Priority"@[5] != "Card Comments"@[5]);
            assert(forall|o: Focus| focus_label(o) == "Card Priority"@ ==> o == Focus::CardPriority);
        },
        Focus::CardStatus => {
            assert("Card Status"@[1] != "Config Help"@[1]);
            assert("Card Status"@[0] != "Extra Focus"@[0]);
            assert(forall|o: Focus| focus_label(o) == "Card Status"@ ==> o == Focus::CardStatus);
        },
        Focus::CardTags => {
            assert("Card Tags"@[0] != "Main Menu"@[0]);
            assert("Card Tags"@[0] != "Load Save"@[0]);
            assert("Card Tags"@[0] != "OTP Field"@[0]);
            assert(forall|o: Focus| focus_label(o) == "Card Tags"@ ==> o == Focus::CardTags);
        },
        Focus::CardComments => {
            assert("Card Comments"@[0] != "New Card Name"@[0]);
            assert("Card Comments"@[5] != "Card Due Date"@[5]);
            assert("Card Comments"@[0] != "Submit Button"@[0]);
            assert("Card Comments"@[5] != "Card Priority"@[5]);
            assert(forall|o: Focus| focus_label(o) == "Card Comments"@ ==> o == Focus::CardComments);
        },
        Focus::ChangeCardPriorityPopup => {
            assert(forall|o: Focus| focus_label(o) == "Change Card Priority Popup"@ ==> o == Focus::ChangeCardPriorityPopup);
        },
        Focus::ChangeDateFormatPopup => {
            assert("Change Date Format Popup"@[7] != "Change Card Status Popup"@[7]);
            assert(forall|o: Focus| focus_label(o) == "Change Date Format Popup"@ ==> o == Focus::ChangeDateFormatPopup);
        },
        Focus::FilterByTagPopup => {
            assert("Filter By Tag Popup"@[0] != "Select Default View"@[0]);
            assert(forall|o: Focus| focus_label(o) == "Filter By Tag Popup"@ ==> o == Focus::FilterByTagPopup);
        },
        Focus::NoFocus => {
            assert(forall|o: Focus| focus_label(o) == "No Focus"@ ==> o == Focus::NoFocus);
        },
        Focus::ExtraFocus => {
            assert("Extra Focus"@[0] != "Config Help"@[0]);
            assert("Extra Focus"@[0] != "Card Status"@[0]);
            assert(forall|o: Focus| focus_label(o) == "Extra Focus"@ ==> o == Focus::ExtraFocus);
        },
        Focus::EmailIDField => {
            assert("Email ID Field"@[0] != "Main Menu Help"@[0]);
            assert("Email ID Field"@[0] != "New Board Name"@[0]);
            assert("Email ID Field"@[0] != "Theme Selector"@[0]);
            assert("Email ID Field"@[0] != "Password Field"@[0]);
            assert(forall|o: Focus| focus_label(o) == "Email ID Field"@ ==> o == Focus::EmailIDField);
        },
        Focus::PasswordField => {
            assert("Password Field"@[0] != "Main Menu Help"@[0]);
            assert("Password Field"@[0] != "New Board Name"@[0]);
            assert("Password Field"@[0] != "Theme Selector"@[0]);
            assert("Password Field"@[0] != "Email ID Field"@[0]);
            assert(forall|o: Focus| focus_label(o) == "Password Field"@ ==> o == Focus::PasswordField);
        },
        Focus::ConfirmPasswordField => {
            assert("Confirm Password Field"@[0] != "Edit Keybindings Table"@[0]);
            assert(forall|o: Focus| focus_label(o) == "Confirm Password Field"@ ==> o == Focus::ConfirmPasswordField);
        },
        Focus::SendResetPasswordLinkButton => {
            assert("Send Reset Password Link Button"@[0] != "Edit Specific Key Binding Popup"@[0]);
            assert(forall|o: Focus| focus_label(o) == "Send Reset Password Link Button"@ ==> o == Focus::SendResetPasswordLinkButton);
        },
        Focus::ResetPasswordLinkField => {
            assert("OTP Field"@[0] != "Main Menu"@[0]);
            assert("OTP Field"@[0] != "Load Save"@[0]);
            assert("OTP Field"@[0] != "Card Tags"@[0]);
            assert(forall|o: Focus| focus_label(o) == "OTP Field"@ ==> o == Focus::ResetPasswordLinkField);
        },
    }
}

/// Index of the first occurrence of `f` in `s`, or -1 when `f` does not occur.
pub open spec fn first_position(s: Seq<Focus>, f: Focus) -> int
    decreases s.len(),
{
    if s.len() == 0 {
        -1
    } else if s[0] == f {
        0
    } else {
        let p = first_position(s.drop_first(), f);
        if p < 0 {
            -1
        } else {
            p + 1
        }
    }
}

/// The target after `f` in the ring `s`; the first target when `f` is not in the ring.
pub open spec fn ring_next(f: Focus, s: Seq<Focus>) -> Focus {
    let p = first_position(s, f);
    if p < 0 || p == s.len() - 1 {
        s[0]
    } else {
        s[p + 1]
    }
}

/// The target before `f` in the ring `s`; the first target when `f` is not in the ring.
pub open spec fn ring_prev(f: Focus, s: Seq<Focus>) -> Focus {
    let p = first_position(s, f);
    if p < 0 {
        s[0]
    } else if p == 0 {
        s[s.len() - 1]
    } else {
        s[p - 1]
    }
}

/// `k` steps forward around the ring `s`, starting at `f`.
pub open spec fn ring_next_n(f: Focus, s: Seq<Focus>, k: nat) -> Focus
    decreases k,
{
    if k == 0 {
        f
    } else {
        ring_next(ring_next_n(f, s, (k - 1) as nat), s)
    }
}

/// `k` steps backward around the ring `s`, starting at `f`.
pub open spec fn ring_prev_n(f: Focus, s: Seq<Focus>, k: nat) -> Focus
    decreases k,
{
    if k == 0 {
        f
    } else {
        ring_prev(ring_prev_n(f, s, (k - 1) as nat), s)
    }
}

pub proof fn lemma_first_position(s: Seq<Focus>, f: Focus)
    ensures
        s.contains(f) ==> {
            let p = first_position(s, f);
            &&& 0 <= p < s.len()
            &&& s[p] == f
            &&& forall|j: int| 0 <= j < p ==> s[j] != f
        },
        !s.contains(f) ==> first_position(s, f) == -1,
    decreases s.len(),
{
    if s.len() > 0 {
        lemma_first_position(s.drop_first(), f);
        if s[0] != f {
            if s.contains(f) {
                let i = choose|i: int| 0 <= i < s.len() && s[i] == f;
                assert(s.drop_first()[i - 1] == f);
            }
            if s.drop_first().contains(f) {
                let i = choose|i: int| 0 <= i < s.drop_first().len() && s.drop_first()[i] == f;
                assert(s[i + 1] == f);
            }
            let p = first_position(s, f);
            assert forall|j: int| 0 <= j < p implies s[j] != f by {
                if j > 0 {
                    assert(s[j] == s.drop_first()[j - 1]);
                }
            }
        } else {
            assert(s[0] == f);
        }
    }
}

/// In a ring, the first position of the element at index `i` is `i`.
pub proof fn lemma_first_position_at(s: Seq<Focus>, i: int)
    requires
        0 <= i < s.len(),
        forall|j: int| 0 <= j < i ==> s[j] != s[i],
    ensures
        first_position(s, s[i]) == i,
{
    lemma_first_position(s, s[i]);
    assert(s.contains(s[i]));
    let p = first_position(s, s[i]);
    if p < i {
        assert(s[p] != s[i]);
    }
    if p > i {
        assert(s[i] != s[i]);
    }
}

proof fn lemma_next_steps(f: Focus, s: Seq<Focus>, k: nat)
    requires
        s.no_duplicates(),
        s.contains(f),
        k <= s.len(),
    ensures
        ({
            let p = first_position(s, f);
            let q = if p + k < s.len() {
                p + k
            } else {
                p + k - s.len()
            };
            ring_next_n(f, s, k) == s[q]
        }),
    decreases k,
{
    lemma_first_position(s, f);
    if k > 0 {
        lemma_next_steps(f, s, (k - 1) as nat);
        let p = first_position(s, f);
        let q0 = if p + k - 1 < s.len() {
            p + k - 1
        } else {
            p + k - 1 - s.len()
        };
        lemma_first_position_at(s, q0);
    }
}

proof fn lemma_prev_steps(f: Focus, s: Seq<Focus>, k: nat)
    requires
        s.no_duplicates(),
        s.contains(f),
        k <= s.len(),
    ensures
        ({
            let p = first_position(s, f);
            let q = if p - k >= 0 {
                p - k
            } else {
                p - k + s.len()
            };
            ring_prev_n(f, s, k) == s[q]
        }),
    decreases k,
{
    lemma_first_position(s, f);
    if k > 0 {
        lemma_prev_steps(f, s, (k - 1) as nat);
        let p = first_position(s, f);
        let q0 = if p - (k - 1) >= 0 {
            p - (k - 1)
        } else {
            p - (k - 1) + s.len()
        };
        lemma_first_position_at(s, q0);
    }
}

/// Stepping forward around a ring without repeated targets, as many times as
/// it has targets, comes back to where it started.
pub proof fn lemma_next_full_turn(f: Focus, s: Seq<Focus>)
    requires
        s.no_duplicates(),
        s.contains(f),
    ensures
        ring_next_n(f, s, s.len()) == f,
{
    lemma_first_position(s, f);
    lemma_next_steps(f, s, s.len());
}

/// Stepping backward around a ring without repeated targets, as many times as
/// it has targets, comes back to where it started.
pub proof fn lemma_prev_full_turn(f: Focus, s: Seq<Focus>)
    requires
        s.no_duplicates(),
        s.contains(f),
    ensures
        ring_prev_n(f, s, s.len()) == f,
{
    lemma_first_position(s, f);
    lemma_prev_steps(f, s, s.len());
}

/// A target outside the ring recovers to the ring's first target, both ways.
pub proof fn lemma_outside_ring(f: Focus, s: Seq<Focus>)
    requires
        s.len() > 0,
        !s.contains(f),
    ensures
        ring_next(f, s) == s[0],
        ring_prev(f, s) == s[0],
{
    lemma_first_position(s, f);
}

impl Focus {
    /// The label of this target, as shown in the interface.
    pub fn to_str(&self) -> (r: &'static str)
        ensures
            r@ == focus_label(*self),
    {
        match self {
            Focus::Title => "Title",
            Focus::Body => "Body",
            Focus::Help => "Help",
            Focus::Log => "Log",
            Focus::ConfigTable => "Config",
            Focus::ConfigHelp => "Config Help",
            Focus::MainMenu => "Main Menu",
            Focus::MainMenuHelp => "Main Menu Help",
            Focus::NewBoardName => "New Board Name",
            Focus::NewBoardDescription => "New Board Description",
            Focus::CardName => "New Card Name",
            Focus::CardDescription => "Card Description",
            Focus::CardDueDate => "Card Due Date",
            Focus::SubmitButton => "Submit Button",
            Focus::EditKeybindingsTable => "Edit Keybindings Table",
            Focus::CloseButton => "Close Button",
            Focus::CommandPaletteCommand => "Command Palette Command",
            Focus::CommandPaletteCard => "Command Palette Card",
            Focus::CommandPaletteBoard => "Command Palette Board",
            Focus::LoadSave => "Load Save",
            Focus::SelectDefaultView => "Select Default View",
            Focus::ChangeUiModePopup => "Change Ui Mode Popup",
            Focus::ChangeCardStatusPopup => "Change Card Status Popup",
            Focus::EditGeneralConfigPopup => "Edit General Config Popup",
            Focus::EditSpecificKeyBindingPopup => "Edit Specific Key Binding Popup",
            Focus::ThemeSelector => "Theme Selector",
            Focus::ThemeEditor => "Theme Editor",
            Focus::StyleEditorFG => "Theme Editor FG",
            Focus::StyleEditorBG => "Theme Editor BG",
            Focus::StyleEditorModifier => "Theme Editor Modifier",
            Focus::TextInput => "Text Input",
            Focus::CardPriority => "Card Priority",
            Focus::CardStatus => "Card Status",
            Focus::CardTags => "Card Tags",
            Focus::CardComments => "Card Comments",
            Focus::ChangeCardPriorityPopup => "Change Card Priority Popup",
            Focus::ChangeDateFormatPopup => "Change Date Format Popup",
            Focus::FilterByTagPopup => "Filter By Tag Popup",
            Focus::NoFocus => "No Focus",
            Focus::ExtraFocus => "Extra Focus",
            Focus::EmailIDField => "Email ID Field",
            Focus::PasswordField => "Password Field",
            Focus::ConfirmPasswordField => "Confirm Password Field",
            Focus::SendResetPasswordLinkButton => "Send Reset Password Link Button",
            Focus::ResetPasswordLinkField => "OTP Field",
        }
    }

    /// Reads a label back; text that is no target's label gives `NoFocus`.
    pub fn from_label(s: &str) -> (r: Focus)
        ensures
            focus_label(r) == s@ || (r == Focus::NoFocus && forall|f: Focus|
                focus_label(f) != s@),
    {
        if str_equal(s, "Title") {
            Focus::Title
        } else if str_equal(s, "Body") {
            Focus::Body
        } else if str_equal(s, "Help") {
            Focus::Help
        } else if str_equal(s, "Log") {
            Focus::Log
        } else if str_equal(s, "Config") {
            Focus::ConfigTable
        } else if str_equal(s, "Config Help") {
            Focus::ConfigHelp
        } else if str_equal(s, "Main Menu") {
            Focus::MainMenu
        } else if str_equal(s, "Main Menu Help") {
            Focus::MainMenuHelp
        } else if str_equal(s, "New Board Name") {
            Focus::NewBoardName
        } else if str_equal(s, "New Board Description") {
            Focus::NewBoardDescription
        } else if str_equal(s, "New Card Name") {
            Focus::CardName
        } else if str_equal(s, "Card Description") {
            Focus::CardDescription
        } else if str_equal(s, "Card Due Date") {
            Focus::CardDueDate
        } else if str_equal(s, "Submit Button") {
            Focus::SubmitButton
        } else if str_equal(s, "Edit Keybindings Table") {
            Focus::EditKeybindingsTable
        } else if str_equal(s, "Close Button") {
            Focus::CloseButton
        } else if str_equal(s, "Command Palette Command") {
            Focus::CommandPaletteCommand
        } else if str_equal(s, "Command Palette Card") {
            Focus::CommandPaletteCard
        } else if str_equal(s, "Command Palette Board") {
            Focus::CommandPaletteBoard
        } else if str_equal(s, "Load Save") {
            Focus::LoadSave
        } else if str_equal(s, "Select Default View") {
            Focus::SelectDefaultView
        } else if str_equal(s, "Change Ui Mode Popup") {
            Focus::ChangeUiModePopup
        } else if str_equal(s, "Change Card Status Popup") {
            Focus::ChangeCardStatusPopup
        } else if str_equal(s, "Edit General Config Popup") {
            Focus::EditGeneralConfigPopup
        } else if str_equal(s, "Edit Specific Key Binding Popup") {
            Focus::EditSpecificKeyBindingPopup
        } else if str_equal(s, "Theme Selector") {
            Focus::ThemeSelector
        } else if str_equal(s, "Theme Editor") {
            Focus::ThemeEditor
        } else if str_equal(s, "Theme Editor FG") {
            Focus::StyleEditorFG
        } else if str_equal(s, "Theme Editor BG") {
            Focus::StyleEditorBG
        } else if str_equal(s, "Theme Editor Modifier") {
            Focus::StyleEditorModifier
        } else if str_equal(s, "Text Input") {
            Focus::TextInput
        } else if str_equal(s, "Card Priority") {
            Focus::CardPriority
        } else if str_equal(s, "Card Status") {
            Focus::CardStatus
        } else if str_equal(s, "Card Tags") {
            Focus::CardTags
        } else if str_equal(s, "Card Comments") {
            Focus::CardComments
        } else if str_equal(s, "Change Card Priority Popup") {
            Focus::ChangeCardPriorityPopup
        } else if str_equal(s, "Change Date Format Popup") {
            Focus::ChangeDateFormatPopup
        } else if str_equal(s, "Filter By Tag Popup") {
            Focus::FilterByTagPopup
        } else if str_equal(s, "No Focus") {
            Focus::NoFocus
        } else if str_equal(s, "Extra Focus") {
            Focus::ExtraFocus
        } else if str_equal(s, "Email ID Field") {
            Focus::EmailIDField
        } else if str_equal(s, "Password Field") {
            Focus::PasswordField
        } else if str_equal(s, "Confirm Password Field") {
            Focus::ConfirmPasswordField
        } else if str_equal(s, "Send Reset Password Link Button") {
            Focus::SendResetPasswordLinkButton
        } else if str_equal(s, "OTP Field") {
            Focus::ResetPasswordLinkField
        } else {
            Focus::NoFocus
        }
    }
    /// The target after this one in `available_tabs`, wrapping round after the
    /// last; the first target when this one is not among them.
    pub fn next(&self, available_tabs: &Vec<Focus>) -> (r: Focus)
        requires
            available_tabs@.len() > 0,
        ensures
            r == ring_next(*self, available_tabs@),
            !available_tabs@.contains(*self) ==> r == available_tabs@[0],
    {
        let n = available_tabs.len();
        let mut i: usize = 0;
        while i < n
            invariant
                n == available_tabs@.len(),
                i <= n,
                forall|j: int| 0 <= j < i ==> available_tabs@[j] != *self,
            decreases n - i,
        {
            if available_tabs[i] == *self {
                proof {
                    lemma_first_position_at(available_tabs@, i as int);
                }
                if i == n - 1 {
                    return available_tabs[0];
                } else {
                    return available_tabs[i + 1];
                }
            }
            i = i + 1;
        }
        proof {
            lemma_first_position(available_tabs@, *self);
        }
        available_tabs[0]
    }

    /// The target before this one in `available_tabs`, wrapping round before
    /// the first; the first target when this one is not among them.
    pub fn prev(&self, available_tabs: &Vec<Focus>) -> (r: Focus)
        requires
            available_tabs@.len() > 0,
        ensures
            r == ring_prev(*self, available_tabs@),
            !available_tabs@.contains(*self) ==> r == available_tabs@[0],
    {
        let n = available_tabs.len();
        let mut i: usize = 0;
        while i < n
            invariant
                n == available_tabs@.len(),
                i <= n,
                forall|j: int| 0 <= j < i ==> available_tabs@[j] != *self,
            decreases n - i,
        {
            if available_tabs[i] == *self {
                proof {
                    lemma_first_position_at(available_tabs@, i as int);
                }
                if i == 0 {
                    return available_tabs[n - 1];
                } else {
                    return available_tabs[i - 1];
                }
            }
            i = i + 1;
        }
        proof {
            lemma_first_position(available_tabs@, *self);
        }
        available_tabs[0]
    }
}

impl Default for Focus {
    fn default() -> (r: Focus)
        ensures
            r == Focus::NoFocus,
    {
        Focus::NoFocus
    }
}

impl std::str::FromStr for Focus {
    type Err = String;

    /// Reads a label as `from_label` does; it never fails.
    fn from_str(s: &str) -> (r: Result<Focus, String>)
        ensures
            match r {
                Ok(f) => focus_label(f) == s@ || (f == Focus::NoFocus && forall|g: Focus|
                    focus_label(g) != s@),
                Err(_) => false,
            },
    {
        Ok(Focus::from_label(s))
    }
}

} // verus!
