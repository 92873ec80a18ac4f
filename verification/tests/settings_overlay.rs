use therminal_window::settings::sections::{
    editor_chain_label, folder_opener_label, SettingsRenderValues,
};
use therminal_window::settings::theme::{apply_theme_preset, ColorsConfig};
use therminal_window::settings::{
    ControlBinding, ControlType, SettingsCommand, SettingsControl, SettingsFocus,
    SettingsOverlayState, SettingsSection, ThemePreset,
};

struct Rgb {
    r: u8,
    g: u8,
    b: u8,
}

fn parse_hex(hex: &str) -> Option<Rgb> {
    let digits = hex.strip_prefix('#')?;
    let channel = |i: usize| u8::from_str_radix(digits.get(i..i + 2)?, 16).ok();
    Some(Rgb { r: channel(0)?, g: channel(2)?, b: channel(4)? })
}

fn srgb_to_linear(v: f64) -> f64 {
    if v <= 0.04045 {
        v / 12.92
    } else {
        ((v + 0.055) / 1.055).powf(2.4)
    }
}
fn relative_luminance(hex: &str) -> f64 {
    let color = parse_hex(hex).expect("valid hex color");
    0.2126 * srgb_to_linear(color.r as f64 / 255.0)
        + 0.7152 * srgb_to_linear(color.g as f64 / 255.0)
        + 0.0722 * srgb_to_linear(color.b as f64 / 255.0)
}
fn contrast_ratio(a: &str, b: &str) -> f64 {
    let l1 = relative_luminance(a);
    let l2 = relative_luminance(b);
    let (hi, lo) = if l1 >= l2 { (l1, l2) } else { (l2, l1) };
    (hi + 0.05) / (lo + 0.05)
}
fn assert_min_ansi_contrast(colors: &ColorsConfig, min_contrast: f64, theme_name: &str) {
    let background = colors.background.as_deref().unwrap_or("#000000");
    let ansi = colors.ansi.as_ref().expect("theme should set ANSI palette");
    for (idx, color) in ansi.iter().enumerate() {
        let ratio = contrast_ratio(background, color);
        assert!(
            ratio >= min_contrast,
            "{theme_name} ANSI[{idx}] contrast too low: {ratio:.2} ({color} on {background})"
        );
    }
}

fn test_render_values() -> SettingsRenderValues {
    SettingsRenderValues {
        show_pane_headers: true,
        show_status_bar: true,
        show_tab_bar: true,
        editor_chain: vec!["$VISUAL".into(), "$EDITOR".into(), "code".into()],
        folder_pane_command: vec!["tfe".into(), "{path}".into()],
        folder_opener: vec!["$FILE_MANAGER".into(), "xdg-open".into()],
        shell: String::new(),
        shell_args: String::new(),
        new_pane_cwd_index: 0,
        high_contrast: false,
        reduced_motion: false,
        ui_text_scale_index: 1,
    }
}

#[test]
fn tab_switches_focus_between_nav_and_controls() {
    let mut state = SettingsOverlayState::new();
    assert_eq!(state.focus(), SettingsFocus::Navigation);
    state.tab(false);
    assert_eq!(state.focus(), SettingsFocus::Controls);
    state.tab(true);
    assert_eq!(state.focus(), SettingsFocus::Navigation);
}

#[test]
fn arrows_navigate_sections_and_controls() {
    let mut state = SettingsOverlayState::new();
    state.sync_toggle_values(&test_render_values());
    assert_eq!(state.active_section_index(), 0);
    state.arrow_down();
    assert_eq!(state.active_section_index(), 1);
    state.arrow_right();
    assert_eq!(state.focus(), SettingsFocus::Controls);
    state.arrow_down();
    assert_eq!(state.active_control_index(), 1);
    state.arrow_up();
    assert_eq!(state.active_control_index(), 0);
}

#[test]
fn enter_from_nav_then_enter_toggles() {
    let mut state = SettingsOverlayState::new();
    assert_eq!(state.enter(), None);
    assert_eq!(state.focus(), SettingsFocus::Controls);
    assert_eq!(state.enter(), Some(SettingsCommand::TogglePaneHeaders));
}

#[test]
fn register_section_extends_navigation_model() {
    let mut state = SettingsOverlayState::new();
    let base = state.sections().len();
    state.register_section(SettingsSection::new(
        "test",
        "Test",
        vec![SettingsControl::new(
            "Toggle",
            ControlBinding::ToggleStatusBar,
        )],
    ));
    assert_eq!(state.sections().len(), base + 1);
    for _ in 0..base {
        state.arrow_down();
    }
    assert_eq!(state.active_section().map(|s| s.id), Some("test"));
}

#[test]
fn toggle_space_flips_value() {
    let mut state = SettingsOverlayState::new();
    state.tab(false);
    assert_eq!(state.space(), Some(SettingsCommand::TogglePaneHeaders));
}

#[test]
fn select_arrows_cycle_options() {
    let mut state = SettingsOverlayState::new();
    state.register_section(SettingsSection::new(
        "ts",
        "TS",
        vec![SettingsControl::with_type(
            "C",
            ControlBinding::ToggleStatusBar,
            ControlType::select(vec!["A".into(), "B".into(), "C".into()], 0),
        )],
    ));
    let target = state.sections().len() - 1;
    for _ in 0..target {
        state.arrow_down();
    }
    state.tab(false);
    state.arrow_right();
    if let ControlType::Select { selected, .. } =
        &state.sections[state.selected_section].controls[0].control_type
    {
        assert_eq!(*selected, 1);
    }
    state.arrow_left();
    if let ControlType::Select { selected, .. } =
        &state.sections[state.selected_section].controls[0].control_type
    {
        assert_eq!(*selected, 0);
    }
}

#[test]
fn text_input_enter_edits_then_confirms() {
    let mut state = SettingsOverlayState::new();
    state.register_section(SettingsSection::new(
        "tt",
        "TT",
        vec![SettingsControl::with_type(
            "N",
            ControlBinding::ToggleStatusBar,
            ControlType::text_input("hello".to_string()),
        )],
    ));
    let target = state.sections().len() - 1;
    for _ in 0..target {
        state.arrow_down();
    }
    state.tab(false);
    assert!(!state.is_text_editing());
    assert_eq!(state.enter(), None);
    assert!(state.is_text_editing());
    assert!(state.char_input('!'));
    assert!(state.enter().is_some());
    assert!(!state.is_text_editing());
    if let ControlType::TextInput { value, .. } =
        &state.sections[state.selected_section].controls[0].control_type
    {
        assert_eq!(value, "hello!");
    }
}

#[test]
fn text_input_backspace() {
    let mut state = SettingsOverlayState::new();
    state.register_section(SettingsSection::new(
        "tb",
        "TB",
        vec![SettingsControl::with_type(
            "P",
            ControlBinding::ToggleStatusBar,
            ControlType::text_input("abc".to_string()),
        )],
    ));
    let target = state.sections().len() - 1;
    for _ in 0..target {
        state.arrow_down();
    }
    state.tab(false);
    state.enter();
    assert!(state.backspace());
    if let ControlType::TextInput { value, cursor, .. } =
        &state.sections[state.selected_section].controls[0].control_type
    {
        assert_eq!(value, "ab");
        assert_eq!(*cursor, 2);
    }
    assert!(!state.delete());
}

#[test]
fn escape_cancels_text_editing() {
    let mut state = SettingsOverlayState::new();
    state.register_section(SettingsSection::new(
        "te",
        "TE",
        vec![SettingsControl::with_type(
            "F",
            ControlBinding::ToggleStatusBar,
            ControlType::text_input("".to_string()),
        )],
    ));
    let target = state.sections().len() - 1;
    for _ in 0..target {
        state.arrow_down();
    }
    state.tab(false);
    state.enter();
    assert!(state.is_text_editing());
    assert!(state.cancel_text_editing());
    assert!(!state.is_text_editing());
}

#[test]
fn theme_preset_writes_expected_palette_fields() {
    let mut colors = ColorsConfig::default();
    apply_theme_preset(&mut colors, ThemePreset::OriginalTherminal);
    assert_eq!(colors.background.as_deref(), Some("#060a12"));
    assert_eq!(colors.foreground.as_deref(), Some("#e7f0ff"));
    assert_eq!(colors.cursor.as_deref(), Some("#fef3c7"));
    assert_eq!(
        colors
            .ansi
            .as_ref()
            .and_then(|v| v.first())
            .map(String::as_str),
        Some("#060a12")
    );
    assert_eq!(
        colors
            .ansi
            .as_ref()
            .and_then(|v| v.get(15))
            .map(String::as_str),
        Some("#fef3c7")
    );
    apply_theme_preset(&mut colors, ThemePreset::Paper);
    assert_eq!(colors.background.as_deref(), Some("#f2eede"));
    assert_eq!(colors.foreground.as_deref(), Some("#000000"));
    assert_eq!(colors.cursor.as_deref(), Some("#000000"));
    assert_eq!(colors.ansi.as_ref().map(|v| v.len()), Some(16));
}

#[test]
fn theme_presets_keep_readable_fg_bg_contrast() {
    const MIN_CONTRAST: f64 = 4.5;
    let mut colors = ColorsConfig::default();
    for preset in [
        ThemePreset::OriginalTherminal,
        ThemePreset::Paper,
        ThemePreset::TokyoNightLight,
        ThemePreset::TomorrowNightBright,
        ThemePreset::HemisuDark,
    ] {
        apply_theme_preset(&mut colors, preset);
        let ratio = contrast_ratio(
            colors.background.as_deref().unwrap_or("#000000"),
            colors.foreground.as_deref().unwrap_or("#ffffff"),
        );
        assert!(
            ratio >= MIN_CONTRAST,
            "{:?} contrast too low: {ratio:.2}",
            preset
        );
    }
    apply_theme_preset(&mut colors, ThemePreset::Paper);
    assert_min_ansi_contrast(&colors, MIN_CONTRAST, "Paper");
    apply_theme_preset(&mut colors, ThemePreset::TokyoNightLight);
    assert_min_ansi_contrast(&colors, MIN_CONTRAST, "TokyoNightLight");
}

#[test]
fn hotspots_section_is_registered() {
    let state = SettingsOverlayState::new();
    assert!(state.sections().iter().any(|s| s.id == "hotspots"));
}

#[test]
fn hotspots_section_rebuilds_from_config() {
    let mut state = SettingsOverlayState::new();
    state.sync_toggle_values(&test_render_values());
    let hotspots = state
        .sections()
        .iter()
        .find(|s| s.id == "hotspots")
        .unwrap();
    assert_eq!(hotspots.controls.len(), 6);
    assert!(matches!(
        hotspots.controls[0].control_type,
        ControlType::ListRow { .. }
    ));
    assert_eq!(hotspots.controls[0].label, "Editor #1");
    assert!(matches!(
        hotspots.controls[3].control_type,
        ControlType::TextInput { .. }
    ));
    assert_eq!(hotspots.controls[3].label, "Folder pane command");
    assert!(matches!(
        hotspots.controls[4].control_type,
        ControlType::ListRow { .. }
    ));
    assert_eq!(hotspots.controls[4].label, "Opener #1");
}

#[test]
fn editor_chain_remove_produces_command() {
    let mut state = SettingsOverlayState::new();
    state.sync_toggle_values(&test_render_values());
    state.arrow_down();
    state.arrow_down();
    state.tab(false);
    let cmd = state.enter();
    assert_eq!(cmd, Some(SettingsCommand::EditorChainRemove(0)));
}

#[test]
fn folder_pane_command_text_edit_produces_command() {
    let mut state = SettingsOverlayState::new();
    state.sync_toggle_values(&test_render_values());
    state.arrow_down();
    state.arrow_down();
    state.tab(false);
    state.arrow_down();
    state.arrow_down();
    state.arrow_down();
    assert_eq!(state.enter(), None);
    assert!(state.is_text_editing());
    let cmd = state.enter();
    assert!(matches!(
        cmd,
        Some(SettingsCommand::SetFolderPaneCommand(_))
    ));
}

#[test]
fn the_same_configuration_twice_changes_nothing_more() {
    let mut once = SettingsOverlayState::new();
    let values = test_render_values();
    once.sync_toggle_values(&values);
    let mut twice = once.clone();
    twice.sync_toggle_values(&values);
    assert_eq!(format!("{once:?}"), format!("{twice:?}"));
}

#[test]
fn themes_are_complete_and_told_apart() {
    let presets = vec![
        ThemePreset::OriginalTherminal,
        ThemePreset::Paper,
        ThemePreset::TokyoNightLight,
        ThemePreset::TomorrowNightBright,
        ThemePreset::HemisuDark,
    ];
    for preset in &presets {
        let mut colors = ColorsConfig::default();
        apply_theme_preset(&mut colors, *preset);
        let mut all = colors.ansi.expect("colours of the terminal");
        assert_eq!(all.len(), 16);
        all.push(colors.background.expect("background"));
        all.push(colors.foreground.expect("foreground"));
        all.push(colors.cursor.expect("cursor"));
        for color in all {
            assert_eq!(color.len(), 7);
            assert!(color.starts_with('#'));
            assert!(color[1..].chars().all(|c| c.is_ascii_hexdigit()));
        }
    }
    for (i, a) in presets.iter().enumerate() {
        for b in &presets[i + 1..] {
            assert_ne!(a.label(), b.label());
            assert_ne!(a.menu_label(), b.menu_label());
        }
    }
}

#[test]
fn bindings_give_their_own_commands() {
    let bindings = vec![
        ControlBinding::TogglePaneHeaders,
        ControlBinding::ToggleStatusBar,
        ControlBinding::ToggleTabBar,
        ControlBinding::ApplyThemePreset(ThemePreset::Paper),
        ControlBinding::ApplyThemePreset(ThemePreset::HemisuDark),
        ControlBinding::EditorChainEntry(0),
        ControlBinding::EditorChainEntry(1),
        ControlBinding::FolderOpenerEntry(0),
        ControlBinding::FolderPaneCommand,
        ControlBinding::DefaultShell,
        ControlBinding::ShellArgs,
        ControlBinding::NewPaneCwd,
        ControlBinding::ToggleHighContrast,
        ControlBinding::ToggleReducedMotion,
        ControlBinding::UiTextScale,
    ];
    for (i, a) in bindings.iter().enumerate() {
        for b in &bindings[i + 1..] {
            assert_ne!(a.command(), b.command());
        }
    }
}

#[test]
fn entries_of_a_list_are_numbered_apart() {
    for i in 0..16 {
        for j in 0..i {
            assert_ne!(editor_chain_label(i), editor_chain_label(j));
            assert_ne!(folder_opener_label(i), folder_opener_label(j));
        }
    }
    assert_eq!(editor_chain_label(15), "Editor #16");
    assert_eq!(folder_opener_label(16), "Opener #?");
}
