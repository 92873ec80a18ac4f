use therminal_window::settings::draw::{
    draw_settings_overlay, truncate_for_width, ColumnWidths, Fill, Slot,
};
use therminal_window::settings::sections::{
    editor_chain_label, folder_opener_label, SettingsRenderValues,
};
use therminal_window::settings::{
    ControlBinding, ControlType, SettingsCommand, SettingsControl, SettingsFocus,
    SettingsOverlayState, SettingsSection,
};

fn values() -> SettingsRenderValues {
    SettingsRenderValues {
        show_pane_headers: false,
        show_status_bar: true,
        show_tab_bar: false,
        editor_chain: vec!["$EDITOR".to_string()],
        folder_pane_command: vec!["tfe".to_string(), "{path}".to_string()],
        folder_opener: vec![],
        shell: "/bin/fish".to_string(),
        shell_args: "-l".to_string(),
        new_pane_cwd_index: 1,
        high_contrast: true,
        reduced_motion: false,
        ui_text_scale_index: 2,
    }
}

fn with_text(value: &str) -> SettingsOverlayState {
    let mut state = SettingsOverlayState::new();
    state.register_section(SettingsSection::new(
        "t",
        "T",
        vec![SettingsControl::with_type(
            "N",
            ControlBinding::ShellArgs,
            ControlType::text_input(value.to_string()),
        )],
    ));
    for _ in 0..state.sections().len() - 1 {
        state.arrow_down();
    }
    state.tab(false);
    state
}

fn text_of(state: &SettingsOverlayState) -> (String, usize) {
    match &state.active_section().unwrap().controls[0].control_type {
        ControlType::TextInput { value, cursor, .. } => (value.clone(), *cursor),
        other => panic!("expected a text, got {other:?}"),
    }
}

#[test]
fn tab_twice_is_nothing() {
    let mut state = SettingsOverlayState::new();
    state.tab(false);
    state.tab(false);
    assert_eq!(state.focus(), SettingsFocus::Navigation);
}

#[test]
fn sections_go_around() {
    let mut state = SettingsOverlayState::new();
    let n = state.sections().len();
    state.arrow_up();
    let last = state.active_section_index();
    state.arrow_down();
    assert_eq!(state.active_section_index(), 0);
    assert_eq!(last, n - 1);
}

#[test]
fn typing_and_backspace_undo_each_other() {
    let mut state = with_text("aé");
    assert_eq!(state.enter(), None);
    assert_eq!(text_of(&state), ("aé".to_string(), 3));
    assert!(state.char_input('世'));
    assert_eq!(text_of(&state), ("aé世".to_string(), 6));
    assert!(state.backspace());
    assert_eq!(text_of(&state), ("aé".to_string(), 3));
    state.arrow_left();
    assert_eq!(text_of(&state), ("aé".to_string(), 1));
    assert!(state.delete());
    assert_eq!(text_of(&state), ("a".to_string(), 1));
    assert_eq!(state.enter(), Some(SettingsCommand::SetShellArgs("a".to_string())));
}

#[test]
fn keys_do_nothing_while_nothing_is_edited() {
    let mut state = with_text("a");
    assert!(!state.char_input('x'));
    assert!(!state.backspace());
    assert!(!state.delete());
    assert!(!state.cancel_text_editing());
}

#[test]
fn the_configuration_is_shown() {
    let mut state = SettingsOverlayState::new();
    state.sync_toggle_values(&values());
    let hotspots = state.sections().iter().find(|s| s.id == "hotspots").unwrap();
    assert_eq!(hotspots.controls.len(), 2);
    match &hotspots.controls[1].control_type {
        ControlType::TextInput { value, .. } => assert_eq!(value, "tfe {path}"),
        other => panic!("expected a text, got {other:?}"),
    }
    match &state.sections()[0].controls[0].control_type {
        ControlType::Toggle { value } => assert!(!value),
        other => panic!("expected a toggle, got {other:?}"),
    }
}

#[test]
fn navigation_can_be_reset() {
    let mut state = SettingsOverlayState::new();
    state.arrow_down();
    state.tab(false);
    state.reset_navigation();
    assert_eq!(state.focus(), SettingsFocus::Navigation);
    assert_eq!(state.active_section_index(), 0);
    assert_eq!(state.active_control_index(), 0);
}

#[test]
fn labels_are_numbered() {
    assert_eq!(editor_chain_label(0), "Editor #1");
    assert_eq!(folder_opener_label(1), "Opener #2");
}

#[test]
fn long_texts_are_cut() {
    assert_eq!(truncate_for_width("abcdef", 10), "abcdef");
    assert_eq!(truncate_for_width("abcdefghij", 5), "ab...");
    assert_eq!(truncate_for_width("abcdefghij", 4), "a...");
    assert_eq!(truncate_for_width("abcdefghij", 0), "a...");
    assert_eq!(truncate_for_width("abcd", 0), "abcd");
    assert_eq!(truncate_for_width("éééééé", 5), "éé...");
}

#[test]
fn the_overlay_is_drawn() {
    let mut state = SettingsOverlayState::new();
    state.sync_toggle_values(&values());
    let widths = ColumnWidths { label: 20, wide_label: 40, value: 20, field: 20 };
    let drawing = draw_settings_overlay(&state, &widths);
    assert_eq!(drawing.fills[0], Fill::Scrim);
    assert_eq!(drawing.fills[1], Fill::Panel);
    assert!(drawing.fills.contains(&Fill::TogglePill { row: 0, on: false }));
    assert_eq!(drawing.runs[0].text, "Settings");
    assert_eq!(drawing.runs[0].slot, Slot::Title);
    assert_eq!(
        drawing.runs[1].text,
        "Tab/Shift+Tab focus, Arrows move, Enter/Space activate, Esc close"
    );
}
