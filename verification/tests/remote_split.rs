use therminal_window::window::remote::{decide_no_daemon_mapping, NoDaemonMappingDecision};
use therminal_window::window::DaemonSplitOnComplete;

#[test]
fn fallback_to_local_for_focus_and_relayout() {
    assert_eq!(
        decide_no_daemon_mapping(&DaemonSplitOnComplete::FocusAndRelayout),
        NoDaemonMappingDecision::FallbackLocal,
    );
}

#[test]
fn bail_for_auto_tile() {
    assert_eq!(
        decide_no_daemon_mapping(&DaemonSplitOnComplete::AutoTile { parent_pane_id: 7 }),
        NoDaemonMappingDecision::Bail,
    );
}

#[test]
fn bail_for_write_bytes_and_focus() {
    assert_eq!(
        decide_no_daemon_mapping(&DaemonSplitOnComplete::WriteBytesAndFocus {
            bytes: b"ls\n".to_vec(),
            toast: None,
        }),
        NoDaemonMappingDecision::Bail,
    );
}

#[test]
fn bail_for_new_workspace() {
    assert_eq!(
        decide_no_daemon_mapping(&DaemonSplitOnComplete::NewWorkspace { workspace_id: 3 }),
        NoDaemonMappingDecision::Bail,
    );
}

#[test]
fn default_variant_is_focus_and_relayout_and_falls_back() {
    let default = DaemonSplitOnComplete::default();
    assert!(matches!(default, DaemonSplitOnComplete::FocusAndRelayout));
    assert_eq!(
        decide_no_daemon_mapping(&default),
        NoDaemonMappingDecision::FallbackLocal,
    );
}
