use thoughts_desktop::ui::{
    hotkey_toggles, toggle_launchbar, tray_command, BuildMode, Hotkey, PanelAction, PanelSetup,
    RecordModeState, TrayCommand,
};

#[test]
fn build_mode_follows_debug_assertions() {
    assert_eq!(BuildMode::of(true), BuildMode::Dev);
    assert_eq!(BuildMode::of(false), BuildMode::Production);
    assert!(BuildMode::Dev.is_dev());
    assert!(!BuildMode::Production.is_dev());
}

#[test]
fn development_panel_is_an_ordinary_window() {
    assert_eq!(
        BuildMode::Dev.panel_setup(),
        PanelSetup {
            decorations: true,
            always_on_top: false,
            start_hidden: false,
            hide_on_blur: false,
        }
    );
}

#[test]
fn production_panel_is_frameless_on_top_and_hidden() {
    assert_eq!(
        BuildMode::Production.panel_setup(),
        PanelSetup {
            decorations: false,
            always_on_top: true,
            start_hidden: true,
            hide_on_blur: true,
        }
    );
}

#[test]
fn panel_hides_on_lost_focus_in_production_only() {
    assert!(BuildMode::Production.panel_setup().hides_on_focus_change(false));
    assert!(!BuildMode::Production.panel_setup().hides_on_focus_change(true));
    assert!(!BuildMode::Dev.panel_setup().hides_on_focus_change(false));
    assert!(!BuildMode::Dev.panel_setup().hides_on_focus_change(true));
}

#[test]
fn hotkey_has_shift_in_development_only() {
    assert_eq!(BuildMode::Dev.hotkey(), Hotkey { shift: true, alt: true });
    assert_eq!(BuildMode::Production.hotkey(), Hotkey { shift: false, alt: true });
}

#[test]
fn shortcut_hint_shows_the_hotkey() {
    assert_eq!(BuildMode::Dev.shortcut_hint(), "⇧+⌥+Space");
    assert_eq!(BuildMode::Production.shortcut_hint(), "⌥+Space");
}

#[test]
fn tray_menu_knows_open_and_quit() {
    assert_eq!(tray_command("open"), TrayCommand::OpenMainWindow);
    assert_eq!(tray_command("quit"), TrayCommand::Quit);
}

#[test]
fn tray_menu_ignores_everything_else() {
    for id in ["", "Open", "QUIT", "open ", "opening", "ope", "quit!", "tray"] {
        assert_eq!(tray_command(id), TrayCommand::Nothing, "{:?}", id);
    }
}

#[test]
fn visible_panel_is_hidden_by_the_hotkey() {
    assert_eq!(toggle_launchbar(Some(true)), PanelAction::Hide);
}

#[test]
fn hidden_or_unknown_panel_is_revealed_by_the_hotkey() {
    assert_eq!(toggle_launchbar(Some(false)), PanelAction::Reveal);
    assert_eq!(toggle_launchbar(None), PanelAction::Reveal);
}

#[test]
fn hotkey_toggles_on_press_of_our_hotkey_only() {
    assert!(hotkey_toggles(true, true));
    assert!(!hotkey_toggles(true, false));
    assert!(!hotkey_toggles(false, true));
    assert!(!hotkey_toggles(false, false));
}

#[test]
fn record_mode_starts_off_and_toggles() {
    let mut state = RecordModeState::new();
    assert!(!state.get_record_mode());
    assert!(state.toggle_record_mode());
    assert!(state.get_record_mode());
    assert!(!state.toggle_record_mode());
    assert!(!state.get_record_mode());
}
