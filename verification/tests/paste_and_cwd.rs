use std::path::Path;
use therminal_window::cwd::{split_spawn_options, validate_inherited_cwd, SpawnOptions};
use therminal_window::layout::LayoutNode;
use therminal_window::paste::normalize_paste_text;
use therminal_window::window::NewPaneCwd;

fn is_dir(path: &str) -> bool {
    Path::new(path).is_dir()
}

fn same(path: &str) -> String {
    path.to_string()
}

fn validate(cwd: Option<String>) -> Option<String> {
    validate_inherited_cwd(cwd, is_dir, same)
}

#[test]
fn pane_ops_normalize_paste_text_passthrough_lf_only() {
    assert_eq!(normalize_paste_text("a\nb\nc"), "a\nb\nc");
}

#[test]
fn pane_ops_normalize_paste_text_collapses_crlf_to_lf() {
    assert_eq!(normalize_paste_text("a\r\nb\r\nc"), "a\nb\nc");
}

#[test]
fn pane_ops_normalize_paste_text_collapses_bare_cr_to_lf() {
    assert_eq!(normalize_paste_text("a\rb\rc"), "a\nb\nc");
}

#[test]
fn pane_ops_normalize_paste_text_mixed_endings() {
    assert_eq!(
        normalize_paste_text("line1\r\nline2\nline3\rline4"),
        "line1\nline2\nline3\nline4"
    );
}

#[test]
fn pane_ops_normalize_paste_text_preserves_trailing_newline() {
    assert_eq!(normalize_paste_text("hello\r\n"), "hello\n");
}

#[test]
fn pane_ops_normalize_paste_text_empty_input() {
    assert_eq!(normalize_paste_text(""), "");
}

#[test]
fn pane_ops_normalize_paste_text_no_line_endings() {
    assert_eq!(normalize_paste_text("hello world"), "hello world");
}

#[test]
fn pane_ops_normalize_paste_text_preserves_unicode() {
    assert_eq!(normalize_paste_text("héllo\r\n世界\rok"), "héllo\n世界\nok");
}

#[test]
fn pane_ops_validate_inherited_cwd_none_when_unknown() {
    assert_eq!(validate(None), None);
}

#[test]
fn pane_ops_validate_inherited_cwd_none_when_empty() {
    assert_eq!(validate(Some(String::new())), None);
}

#[test]
fn pane_ops_validate_inherited_cwd_none_when_path_missing() {
    let bogus = "/this/path/should/not/exist/therminal-test-xyz".to_string();
    assert!(!Path::new(&bogus).exists());
    assert_eq!(validate(Some(bogus)), None);
}

#[test]
fn pane_ops_validate_inherited_cwd_none_when_path_is_file() {
    let file = "/dev/null".to_string();
    assert!(Path::new(&file).exists());
    assert_eq!(validate(Some(file)), None);
}

#[test]
fn pane_ops_validate_inherited_cwd_some_when_dir_exists() {
    let s = "/".to_string();
    assert_eq!(validate(Some(s.clone())), Some(s));
}

#[test]
fn pane_ops_validate_inherited_cwd_returns_linux_path_not_unc_on_windows() {
    let linux_path = "/tmp".to_string();
    let unc = r"\\wsl.localhost\Ubuntu\tmp";
    let result = validate_inherited_cwd(
        Some(linux_path.clone()),
        |p| p == unc,
        |p| if p == "/tmp" { unc.to_string() } else { p.to_string() },
    );
    let returned = result.expect("the translated path is a directory");
    assert!(!returned.starts_with(r"\\"));
    assert_eq!(returned, linux_path);
}

#[test]
fn pane_ops_split_spawn_options_falls_back_to_base_cwd_when_source_unknown() {
    let base = SpawnOptions {
        shell: "/bin/bash".to_string(),
        shell_args: Vec::new(),
        env: Vec::new(),
        cwd: "/some/base".to_string(),
        advertise_kitty_graphics: false,
    };
    let chosen = split_spawn_options(
        base,
        &LayoutNode::Empty,
        7,
        NewPaneCwd::Inherit,
        is_dir,
        same,
    );
    assert_eq!(chosen.cwd, "/some/base");
    assert_eq!(chosen.shell, "/bin/bash");
}

#[test]
fn mod_normalize_paste_text_passthrough_lf_only() {
    assert_eq!(normalize_paste_text("a\nb\nc"), "a\nb\nc");
}

#[test]
fn mod_normalize_paste_text_collapses_crlf_to_lf() {
    assert_eq!(normalize_paste_text("a\r\nb\r\nc"), "a\nb\nc");
}

#[test]
fn mod_normalize_paste_text_collapses_bare_cr_to_lf() {
    assert_eq!(normalize_paste_text("a\rb\rc"), "a\nb\nc");
}

#[test]
fn mod_normalize_paste_text_mixed_endings() {
    assert_eq!(
        normalize_paste_text("line1\r\nline2\nline3\rline4"),
        "line1\nline2\nline3\nline4"
    );
}

#[test]
fn mod_normalize_paste_text_preserves_trailing_newline() {
    assert_eq!(normalize_paste_text("hello\r\n"), "hello\n");
}

#[test]
fn mod_normalize_paste_text_empty_input() {
    assert_eq!(normalize_paste_text(""), "");
}

#[test]
fn mod_normalize_paste_text_no_line_endings() {
    assert_eq!(normalize_paste_text("hello world"), "hello world");
}

#[test]
fn mod_normalize_paste_text_preserves_unicode() {
    assert_eq!(normalize_paste_text("héllo\r\n世界\rok"), "héllo\n世界\nok");
}

#[test]
fn mod_validate_inherited_cwd_none_when_unknown() {
    assert_eq!(validate(None), None);
}

#[test]
fn mod_validate_inherited_cwd_none_when_empty() {
    assert_eq!(validate(Some(String::new())), None);
}

#[test]
fn mod_validate_inherited_cwd_none_when_path_missing() {
    let bogus = "/this/path/should/not/exist/therminal-test-xyz".to_string();
    assert!(!Path::new(&bogus).exists());
    assert_eq!(validate(Some(bogus)), None);
}

#[test]
fn mod_validate_inherited_cwd_none_when_path_is_file() {
    let file = "/dev/null".to_string();
    assert!(Path::new(&file).exists());
    assert_eq!(validate(Some(file)), None);
}

#[test]
fn mod_validate_inherited_cwd_some_when_dir_exists() {
    let s = "/".to_string();
    assert_eq!(validate(Some(s.clone())), Some(s));
}

#[test]
fn mod_validate_inherited_cwd_returns_linux_path_not_unc_on_windows() {
    let linux_path = "/tmp".to_string();
    let unc = r"\\wsl.localhost\Ubuntu\tmp";
    let result = validate_inherited_cwd(
        Some(linux_path.clone()),
        |p| p == unc,
        |p| if p == "/tmp" { unc.to_string() } else { p.to_string() },
    );
    let returned = result.expect("the translated path is a directory");
    assert!(!returned.starts_with(r"\\"));
    assert_eq!(returned, linux_path);
}

#[test]
fn mod_split_spawn_options_falls_back_to_base_cwd_when_source_unknown() {
    let base = SpawnOptions {
        shell: "/bin/bash".to_string(),
        shell_args: Vec::new(),
        env: Vec::new(),
        cwd: "/some/base".to_string(),
        advertise_kitty_graphics: false,
    };
    let chosen = split_spawn_options(
        base,
        &LayoutNode::Empty,
        7,
        NewPaneCwd::Inherit,
        is_dir,
        same,
    );
    assert_eq!(chosen.cwd, "/some/base");
    assert_eq!(chosen.shell, "/bin/bash");
}
