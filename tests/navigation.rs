use rust_kanban::focus::Focus;
use rust_kanban::status::AppStatus;
use rust_kanban::ui_mode::UiMode;

const ALL_MODES: [UiMode; 21] = [
    UiMode::Zen,
    UiMode::TitleBody,
    UiMode::BodyHelp,
    UiMode::BodyLog,
    UiMode::TitleBodyHelp,
    UiMode::TitleBodyLog,
    UiMode::TitleBodyHelpLog,
    UiMode::BodyHelpLog,
    UiMode::ConfigMenu,
    UiMode::EditKeybindings,
    UiMode::MainMenu,
    UiMode::HelpMenu,
    UiMode::LogsOnly,
    UiMode::NewBoard,
    UiMode::NewCard,
    UiMode::LoadSave,
    UiMode::CreateTheme,
    UiMode::Login,
    UiMode::SignUp,
    UiMode::ResetPassword,
    UiMode::LoadCloudSave,
];

#[test]
fn every_mode_has_targets() {
    for m in ALL_MODES {
        assert!(!m.get_available_targets().is_empty());
    }
}

#[test]
fn full_turn_returns_to_start() {
    for m in ALL_MODES {
        let targets = m.get_available_targets();
        for f in targets.iter() {
            let mut fwd = *f;
            let mut back = *f;
            for _ in 0..targets.len() {
                fwd = fwd.next(&targets);
                back = back.prev(&targets);
            }
            assert_eq!(fwd, *f);
            assert_eq!(back, *f);
        }
    }
}

#[test]
fn outside_focus_recovers_to_first() {
    let targets = UiMode::TitleBodyHelp.get_available_targets();
    assert_eq!(Focus::ConfigTable.next(&targets), Focus::Title);
    assert_eq!(Focus::ConfigTable.prev(&targets), Focus::Title);
}

#[test]
fn config_menu_ring() {
    let targets = UiMode::ConfigMenu.get_available_targets();
    assert_eq!(targets, vec![Focus::ConfigTable, Focus::SubmitButton, Focus::ExtraFocus]);
    assert_eq!(Focus::SubmitButton.next(&targets), Focus::ExtraFocus);
    assert_eq!(Focus::SubmitButton.prev(&targets), Focus::ConfigTable);
}

#[test]
fn ring_wraps_at_both_ends() {
    let targets = UiMode::ConfigMenu.get_available_targets();
    assert_eq!(Focus::ExtraFocus.next(&targets), Focus::ConfigTable);
    assert_eq!(Focus::ConfigTable.prev(&targets), Focus::ExtraFocus);
}

#[test]
fn zen_ring_is_a_fixed_point() {
    let targets = UiMode::Zen.get_available_targets();
    assert_eq!(targets, vec![Focus::Body]);
    assert_eq!(Focus::Body.next(&targets), Focus::Body);
    assert_eq!(Focus::Body.prev(&targets), Focus::Body);
}

#[test]
fn display_round_trip() {
    let selectable = &ALL_MODES[..17];
    for m in selectable {
        assert_eq!(UiMode::from_string(m.to_display_str()), Some(*m));
        assert_eq!(UiMode::from_string(&m.to_display_string()), Some(*m));
    }
    for m in &ALL_MODES[17..] {
        assert_eq!(UiMode::from_string(m.to_display_str()), None);
    }
    assert_eq!(UiMode::TitleBody.to_display_string(), "Title and Body");
    assert_eq!(UiMode::from_string("Config"), Some(UiMode::ConfigMenu));
}

#[test]
fn local_save_label_round_trips() {
    assert_eq!(UiMode::LoadSave.to_display_str(), "Load a Save (Local)");
    assert_eq!(UiMode::from_string("Load a Save (Local)"), Some(UiMode::LoadSave));
    assert_eq!(UiMode::from_string("Load a Save"), None);
}

#[test]
fn display_labels_are_distinct() {
    for (i, a) in ALL_MODES.iter().enumerate() {
        for b in &ALL_MODES[i + 1..] {
            assert_ne!(a.to_display_str(), b.to_display_str());
        }
    }
}

#[test]
fn unknown_mode_texts() {
    assert_eq!(UiMode::from_string("zen"), None);
    assert_eq!(UiMode::from_string(""), None);
    assert_eq!(UiMode::from_json_string("Title and Body"), None);
    assert_eq!(UiMode::from_json_string("Login"), None);
}

#[test]
fn persisted_names() {
    assert_eq!(UiMode::from_json_string("TitleBodyHelpLog"), Some(UiMode::TitleBodyHelpLog));
    assert_eq!(UiMode::from_json_string("CreateTheme"), Some(UiMode::CreateTheme));
    assert_eq!(UiMode::from_json_string("Zen"), Some(UiMode::Zen));
}

#[test]
fn legacy_numbers() {
    assert_eq!(UiMode::from_number(1), UiMode::Zen);
    assert_eq!(UiMode::from_number(8), UiMode::TitleBodyHelpLog);
    assert_eq!(UiMode::from_number(9), UiMode::LogsOnly);
    assert_eq!(UiMode::from_number(0), UiMode::TitleBody);
    assert_eq!(UiMode::from_number(200), UiMode::TitleBody);
}

#[test]
fn view_mode_lists() {
    let modes = UiMode::view_modes();
    assert_eq!(modes.len(), 8);
    assert_eq!(modes[0], UiMode::Zen);
    assert_eq!(modes[7], UiMode::TitleBodyHelpLog);
    let labels = UiMode::view_modes_as_string();
    assert_eq!(labels[1], "Title and Body");
    assert_eq!(labels[6], "Body, Help and Log");
    assert_eq!(labels.len(), 8);
}

#[test]
fn focus_labels() {
    assert_eq!(Focus::ConfigTable.to_str(), "Config");
    assert_eq!(Focus::ResetPasswordLinkField.to_str(), "OTP Field");
    assert_eq!(Focus::from_label("Submit Button"), Focus::SubmitButton);
    assert_eq!(Focus::from_label("OTP Field"), Focus::ResetPasswordLinkField);
    assert_eq!(Focus::from_label("nothing"), Focus::NoFocus);
    let parsed: Focus = "Card Tags".parse().unwrap();
    assert_eq!(parsed, Focus::CardTags);
    assert_eq!("Email ID Field".parse::<Focus>(), Ok(Focus::EmailIDField));
    assert_eq!("config".parse::<Focus>(), Ok(Focus::NoFocus));
    assert_eq!("".parse::<Focus>(), Ok(Focus::NoFocus));
}

#[test]
fn app_status() {
    assert!(AppStatus::initialized().is_initialized());
    assert!(!AppStatus::Init.is_initialized());
    assert!(!AppStatus::UserInput.is_initialized());
}
