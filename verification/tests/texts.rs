use therminal_window::editor::search::{
    is_executable, which_candidates, which_on_path, FileFacts,
};
use therminal_window::editor::split_location;
use therminal_window::paste::normalize_paste_text;
use therminal_window::shell::{editor_command, launch_command, shell_quote, tail_command};
use therminal_window::words::{head_word, path_base_name, path_file_name};

fn strings(items: &[&str]) -> Vec<String> {
    items.iter().map(|s| s.to_string()).collect()
}

#[test]
fn quoting_protects_quotes() {
    assert_eq!(shell_quote("a b"), "'a b'");
    assert_eq!(shell_quote(""), "''");
    assert_eq!(shell_quote("it's"), "'it'\\''s'");
    assert_eq!(shell_quote("'"), "''\\'''");
}

#[test]
fn commands_for_panes() {
    assert_eq!(tail_command("/a b"), "clear && tail --lines=+1 -F '/a b'\n");
    assert_eq!(
        editor_command("~/x.rs", "7", Some("/w")),
        "cd '/w' && clear && exec ${EDITOR:-${VISUAL:-nvim}} ~/x.rs +7\n"
    );
    assert_eq!(
        editor_command("x.rs", "1", None),
        "clear && exec ${EDITOR:-${VISUAL:-nvim}} x.rs +1\n"
    );
}

#[test]
fn locations_are_split() {
    let parts = |s: &str| split_location(s);
    assert_eq!(parts("/a/b.rs:42:7"), ("/a/b.rs".to_string(), "42".to_string()));
    assert_eq!(parts("/a/b.rs:42"), ("/a/b.rs".to_string(), "42".to_string()));
    assert_eq!(parts("/a/b.rs"), ("/a/b.rs".to_string(), "1".to_string()));
    assert_eq!(parts("C:x"), ("C:x".to_string(), "1".to_string()));
    assert_eq!(parts("a:"), ("a:".to_string(), "1".to_string()));
}

#[test]
fn commands_are_looked_for_in_every_directory() {
    assert_eq!(
        which_candidates("vim", &strings(&["/bin", "/usr/bin/"]), &strings(&[".exe"])),
        strings(&["/bin/vim", "/bin/vim.exe", "/usr/bin/vim", "/usr/bin/vim.exe"])
    );
    assert_eq!(
        which_candidates("./vim", &strings(&["/bin"]), &strings(&[".exe"])),
        strings(&["./vim"])
    );
}

#[test]
fn words_and_names() {
    assert_eq!(head_word("  code --wait"), "code");
    assert_eq!(head_word(" \t"), "");
    assert_eq!(head_word("a\u{3000}b"), "a");
    assert_eq!(path_base_name("/usr/bin/nvim"), "nvim");
    assert_eq!(path_base_name("nvim"), "nvim");
    assert_eq!(path_file_name("/tmp/dir/"), Some("dir".to_string()));
    assert_eq!(path_file_name("/"), None);
}

#[test]
fn normalizing_is_done_once() {
    let text = "a\r\r\nb\rc\n\r";
    let once = normalize_paste_text(text);
    assert_eq!(once, "a\n\nb\nc\n\n");
    assert_eq!(normalize_paste_text(&once), once);
    assert!(once.len() <= text.len());
}

#[test]
fn a_command_is_searched_for() {
    let dirs = strings(&["/bin", "/usr/bin"]);
    let exts = strings(&[".exe"]);
    let only = |there: &'static str| {
        move |file: &str| FileFacts { is_file: file == there, mode: Some(0o755) }
    };
    assert!(which_on_path("vim", &dirs, &exts, only("/usr/bin/vim")));
    assert!(which_on_path("vim", &dirs, &exts, only("/bin/vim.exe")));
    assert!(!which_on_path("vim", &dirs, &exts, only("/opt/vim")));
    assert!(!which_on_path("vim", &strings(&[]), &exts, only("vim")));
    assert!(which_on_path("/opt/vim", &dirs, &exts, only("/opt/vim")));
    assert!(!which_on_path("/opt/vim", &dirs, &exts, only("/bin/vim")));
}

#[test]
fn a_file_that_nobody_may_execute_is_no_command() {
    let dirs = strings(&["/bin", "/usr/bin"]);
    let exts = strings(&[]);
    let everywhere = |mode: Option<u32>| move |_: &str| FileFacts { is_file: true, mode };
    assert!(!which_on_path("notes", &dirs, &exts, everywhere(Some(0o644))));
    assert!(which_on_path("notes", &dirs, &exts, everywhere(Some(0o654))));
    assert!(which_on_path("notes", &dirs, &exts, everywhere(None)));
    let second = |file: &str| FileFacts {
        is_file: true,
        mode: Some(if file == "/usr/bin/notes" { 0o100 } else { 0o600 }),
    };
    assert!(which_on_path("notes", &dirs, &exts, second));
    assert!(!is_executable(FileFacts { is_file: false, mode: Some(0o777) }));
}

#[test]
fn an_editor_is_started_on_a_line() {
    assert_eq!(launch_command("nvim", "/it's.rs", "7"), "clear && exec nvim +7 '/it'\\''s.rs'\n");
}
