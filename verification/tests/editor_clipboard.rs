use std::collections::HashMap;
use therminal_window::editor::chain::resolve_editor_chain;
use therminal_window::editor::OpenInEditorPlan;
use therminal_window::editor::detached::plan_open_in_editor;

fn chain(items: &[&str]) -> Vec<String> {
    items.iter().map(|s| s.to_string()).collect()
}

fn ok_file(_: &str) -> std::io::Result<bool> {
    Ok(true)
}

fn not_regular(_: &str) -> std::io::Result<bool> {
    Ok(false)
}

fn not_found(_: &str) -> std::io::Result<bool> {
    Err(std::io::Error::from(std::io::ErrorKind::NotFound))
}

#[test]
fn editor_clipboard_resolve_picks_first_hit_on_path() {
    let c = chain(&["$VISUAL", "$EDITOR", "code", "nvim", "vim", "nano"]);
    let env: HashMap<&str, &str> = HashMap::new();
    let resolved = resolve_editor_chain(
        &c,
        |cmd| matches!(cmd, "nvim" | "vim" | "nano"),
        |v| env.get(v).map(|s| s.to_string()),
    );
    assert_eq!(resolved.as_deref(), Some("nvim"));
}

#[test]
fn editor_clipboard_resolve_expands_env_tokens_first() {
    let c = chain(&["$VISUAL", "$EDITOR", "vim"]);
    let mut env: HashMap<&str, &str> = HashMap::new();
    env.insert("EDITOR", "hx");
    let resolved =
        resolve_editor_chain(&c, |cmd| cmd == "hx", |v| env.get(v).map(|s| s.to_string()));
    assert_eq!(resolved.as_deref(), Some("hx"));
}

#[test]
fn editor_clipboard_resolve_skips_unset_env_tokens() {
    let c = chain(&["$VISUAL", "$EDITOR", "nano"]);
    let resolved = resolve_editor_chain(&c, |cmd| cmd == "nano", |_| None);
    assert_eq!(resolved.as_deref(), Some("nano"));
}

#[test]
fn editor_clipboard_resolve_preserves_editor_args_but_probes_head() {
    let c = chain(&["$EDITOR", "vim"]);
    let mut env: HashMap<&str, &str> = HashMap::new();
    env.insert("EDITOR", "code --wait");
    let resolved = resolve_editor_chain(
        &c,
        |cmd| cmd == "code",
        |v| env.get(v).map(|s| s.to_string()),
    );
    assert_eq!(resolved.as_deref(), Some("code --wait"));
}

#[test]
fn editor_clipboard_plan_file_not_found_yields_fail_with_basename() {
    let c = chain(&["nvim"]);
    let plan = plan_open_in_editor("/nope/missing.rs:42", &c, not_found, |_| None);
    assert_eq!(
        plan,
        OpenInEditorPlan::Fail("file not found: missing.rs".to_string())
    );
}

#[test]
fn editor_clipboard_plan_not_regular_file_yields_fail_with_basename() {
    let c = chain(&["nvim"]);
    let plan = plan_open_in_editor("/tmp/somedir", &c, not_regular, |_| None);
    assert_eq!(
        plan,
        OpenInEditorPlan::Fail("somedir is not a regular file".to_string())
    );
}

#[test]
fn editor_clipboard_plan_no_editor_resolved_yields_open_fallback() {
    let c = chain(&["$EDITOR", "vim"]);
    let plan = plan_open_in_editor("/tmp/foo.rs:10", &c, ok_file, |_| None);
    assert_eq!(
        plan,
        OpenInEditorPlan::OpenFallback {
            path: "/tmp/foo.rs".to_string()
        }
    );
}

#[test]
fn editor_clipboard_plan_happy_path_yields_spawn_with_line() {
    let c = chain(&["nvim"]);
    let plan = plan_open_in_editor("/tmp/foo.rs:42:7", &c, ok_file, |_| {
        Some("nvim".to_string())
    });
    assert_eq!(
        plan,
        OpenInEditorPlan::Spawn {
            editor: "nvim".to_string(),
            path: "/tmp/foo.rs".to_string(),
            line: "42".to_string(),
        }
    );
}

#[test]
fn editor_clipboard_plan_no_line_defaults_to_1() {
    let c = chain(&["vim"]);
    let plan = plan_open_in_editor("/tmp/bar.md", &c, ok_file, |_| Some("vim".to_string()));
    match plan {
        OpenInEditorPlan::Spawn { line, .. } => assert_eq!(line, "1"),
        other => panic!("expected Spawn, got {other:?}"),
    }
}

#[test]
fn editor_clipboard_resolve_returns_none_when_nothing_on_path() {
    let c = chain(&["$EDITOR", "code", "nvim"]);
    let resolved = resolve_editor_chain(&c, |_| false, |_| None);
    assert!(resolved.is_none());
}

#[test]
fn editor_clipboard_resolve_skips_empty_entries() {
    let c = chain(&["", "$VISUAL", "vim"]);
    let resolved = resolve_editor_chain(&c, |cmd| cmd == "vim", |_| None);
    assert_eq!(resolved.as_deref(), Some("vim"));
}
