use therminal_window::editor::OpenInEditorPlan;
use therminal_window::hotspot::CellMap;
use therminal_window::ids::PaneIdMap;
use therminal_window::layout::{LayoutNode, PaneId, PaneState, Ratio, SplitDirection};
use therminal_window::layout_ops::HALF_BITS;
use therminal_window::swarm_panes::SwarmPanes;
use therminal_window::ipc::{
    DaemonLayout, IpcRequest, IpcResponse, PaneSummary, Reply, RpcAttempt, RpcFailure,
    WebViewError, WorkspaceInfo,
};
use therminal_window::layout_ops::FocusDirection;
use therminal_window::window::close::CloseStep;
use therminal_window::window::editing::EditorStep;
use therminal_window::window::focus::SwapStep;
use therminal_window::window::pointer::{Pointer, Screen};
use therminal_window::window::reconcile::{
    build_reconcile_result, pane_diff, workspaces_answer, NewPane, PaneFate, PanePool,
    ReconcileError,
};
use therminal_window::window::remote::{split_answer, MountStep};
use therminal_window::window::restore::LeafSource;
use therminal_window::window::spawn::SpawnStep;
use therminal_window::window::split::SplitStep;
use therminal_window::window::workspace::{SendStep, SwitchStep};
use therminal_window::window::{
    App, DaemonSplitOnComplete, DaemonSplitResult, Effect, NewPaneCwd, Notice, Workspaces,
};

fn pane(id: PaneId) -> PaneState {
    PaneState { id, pinned: false, cwd: None, claude_session_id: None }
}

fn leaf(id: PaneId) -> LayoutNode {
    LayoutNode::Leaf(pane(id))
}

fn split(first: LayoutNode, second: LayoutNode) -> LayoutNode {
    LayoutNode::Split {
        direction: SplitDirection::Horizontal,
        ratio: Ratio { bits: HALF_BITS },
        first: Box::new(first),
        second: Box::new(second),
    }
}

fn workspaces(layout: LayoutNode, focused: PaneId) -> Workspaces {
    Workspaces { active_id: 1, ids: vec![1], layout, focused: Some(focused) }
}

fn app(layout: LayoutNode, focused: PaneId) -> App {
    App {
        attach_remote: false,
        daemon_client: false,
        daemon_runtime: false,
        daemon_session_id: None,
        has_renderer: true,
        has_window: true,
        has_layout_rect: true,
        auto_tile_debouncer: true,
        swarm_debouncer_tx: true,
        new_pane_cwd: NewPaneCwd::Inherit,
        pane_id_map: PaneIdMap::new(),
        workspaces: Some(workspaces(layout, focused)),
        zoomed_layout: None,
        last_close_action: None,
        last_split_direction: SplitDirection::Vertical,
        scrollback_compact_countdown: 0,
        swarm_panes: SwarmPanes::new(),
        selection_pane: None,
        selection_in_progress: false,
        screen: Screen {
            use_csd: false,
            show_pane_headers: true,
            surface: Some((800, 600)),
            pointer: Pointer {
                cursor_known: true,
                left_held: false,
                drag_pane: None,
                last_click_time: None,
                last_click_pos: None,
                click_count: 0,
                separator_cursor_active: false,
                edge_cursor_active: false,
                hyperlink_cursor_active: false,
            },
            separator_drag: None,
            hyperlinks: CellMap::new(),
            hotspots: CellMap::new(),
        },
        effects: Vec::new(),
    }
}

fn daemon_app(layout: LayoutNode, focused: PaneId) -> App {
    let mut app = app(layout, focused);
    app.attach_remote = true;
    app.daemon_client = true;
    app.daemon_runtime = true;
    app.daemon_session_id = Some(5);
    app
}

fn wide(_: PaneId, other: SplitDirection) -> SplitDirection {
    other
}

fn answered(response: IpcResponse, printed: &str) -> RpcAttempt {
    RpcAttempt::Answered { response, printed: printed.to_string() }
}

fn select(pane_id: u64) -> Effect {
    Effect::Notify(IpcRequest::SelectPane { pane_id })
}

#[test]
fn requests_need_a_connection() {
    let mut app = app(leaf(1), 1);
    let answer = || answered(IpcResponse::PaneKilled, "PaneKilled");
    assert_eq!(app.daemon_rpc_blocking(answer()), Err(RpcFailure::NoClient));
    app.daemon_client = true;
    assert_eq!(app.daemon_rpc_blocking(answer()), Err(RpcFailure::NoRuntime));
    app.daemon_runtime = true;
    assert_eq!(app.daemon_rpc_blocking(answer()), Ok(IpcResponse::PaneKilled));
    let failed = app.daemon_rpc_blocking(RpcAttempt::Failed("gone".to_string()));
    assert_eq!(failed.unwrap_err().message(), "daemon rpc error: gone");
    let late = app.daemon_rpc_blocking(RpcAttempt::TimedOut);
    assert_eq!(late.unwrap_err().message(), "daemon rpc timed out after 5s");
    assert_eq!(RpcFailure::NoClient.message(), "no daemon client");
    assert_eq!(RpcFailure::NoRuntime.message(), "no daemon runtime handle");
}

#[test]
fn the_daemon_follows_the_focus() {
    let mut app = daemon_app(split(leaf(1), leaf(2)), 1);
    app.pane_id_map.insert(2, 20);
    app.move_focus(FocusDirection::Next);
    assert!(app.effects.contains(&select(20)));
    app.effects.clear();
    app.move_focus(FocusDirection::Next);
    assert!(!app.effects.iter().any(|e| matches!(e, Effect::Notify(_))));
}

#[test]
fn a_pane_that_the_daemon_keeps_stays() {
    let mut app = daemon_app(split(leaf(1), leaf(2)), 2);
    app.pane_id_map.insert(2, 20);
    let kill = IpcRequest::KillPane { pane_id: 20 };
    assert_eq!(app.close_focused_pane(0), CloseStep::Kill { pane: 2, request: kill });
    let refused: Reply = Ok(IpcResponse::Error { message: "busy".to_string() });
    assert_eq!(app.close_focused_pane_killed(2, refused), CloseStep::Done);
    assert_eq!(app.pane_id_map.daemon_for_local(2), Some(20));
    assert_eq!(app.effects, vec![Effect::Toast(Notice::KillFailed("busy".to_string()))]);
    let lost: Reply = Err(RpcFailure::TimedOut);
    assert_eq!(app.close_focused_pane_killed(2, lost), CloseStep::Done);
    assert_eq!(app.effects[1], Effect::Toast(Notice::DaemonKillFailed));
    let done: Reply = Ok(IpcResponse::PaneKilled);
    assert_eq!(app.close_focused_pane_killed(2, done), CloseStep::Remove { pane: 2 });
    assert_eq!(app.pane_id_map.daemon_for_local(2), None);
}

#[test]
fn two_panes_that_exit_at_once_are_both_forgotten() {
    let mut app = daemon_app(split(leaf(1), leaf(2)), 1);
    app.pane_id_map.insert(1, 10);
    app.pane_id_map.insert(2, 20);
    assert_eq!(app.close_pane_by_id(1, 0), CloseStep::Remove { pane: 1 });
    assert_eq!(app.close_pane_by_id(2, 1), CloseStep::Done);
    assert_eq!(app.pane_id_map.daemon_for_local(1), None);
    assert_eq!(app.pane_id_map.daemon_for_local(2), None);
    assert_eq!(app.effects, vec![Effect::Ask(IpcRequest::KillPane { pane_id: 10 })]);
}

#[test]
fn panes_swap_once_the_daemon_has() {
    let mut app = daemon_app(split(leaf(1), leaf(2)), 1);
    app.pane_id_map.insert(1, 10);
    app.pane_id_map.insert(2, 20);
    let step = app.swap_focused_pane(FocusDirection::Next);
    assert_eq!(
        step,
        SwapStep::Ask { a: 1, b: 2, request: IpcRequest::SwapPane { a: 10, b: 20 } }
    );
    app.finish_swap_focused_pane(1, 2, Err(RpcFailure::TimedOut));
    assert_eq!(app.workspaces.as_ref().unwrap().layout.pane_ids(), vec![1, 2]);
    assert_eq!(app.effects, vec![Effect::Toast(Notice::DaemonSwapFailed)]);
    app.finish_swap_focused_pane(1, 2, Ok(IpcResponse::PaneSwapped));
    assert_eq!(app.workspaces.as_ref().unwrap().layout.pane_ids(), vec![2, 1]);
}

#[test]
fn a_split_goes_to_the_daemon_and_back() {
    let mut app = daemon_app(leaf(1), 1);
    app.pane_id_map.insert(1, 10);
    let step = app.split_focused_pane(SplitDirection::Horizontal);
    assert_eq!(
        step,
        SplitStep::AskDaemon {
            source: 1,
            daemon_source: 10,
            direction: SplitDirection::Horizontal,
            on_complete: DaemonSplitOnComplete::FocusAndRelayout,
        }
    );
    app.request_split(
        1,
        10,
        SplitDirection::Horizontal,
        Some("/w".to_string()),
        DaemonSplitOnComplete::FocusAndRelayout,
    );
    assert_eq!(
        app.effects,
        vec![Effect::SplitRemote {
            request: IpcRequest::SplitPane {
                pane_id: 10,
                horizontal: true,
                cwd: Some("/w".to_string()),
            },
            source_local: 1,
            direction: SplitDirection::Horizontal,
            inherited_cwd: Some("/w".to_string()),
            on_complete: DaemonSplitOnComplete::FocusAndRelayout,
        }]
    );
    let answer = answered(IpcResponse::PaneSplit { new_pane_id: 11 }, "");
    let result = DaemonSplitResult {
        source_local: 1,
        direction: SplitDirection::Horizontal,
        rpc_result: split_answer(answer),
        inherited_cwd: Some("/w".to_string()),
        on_complete: DaemonSplitOnComplete::FocusAndRelayout,
    };
    app.effects.clear();
    match app.finish_split_pane_remote(result) {
        MountStep::BuildPane { source, daemon_pane, direction, on_complete, .. } => {
            app.finish_mount(source, direction, daemon_pane, Some(pane(2)), on_complete);
        }
        other => panic!("expected a pane to make, got {other:?}"),
    }
    assert_eq!(app.workspaces, Some(workspaces(split(leaf(1), leaf(2)), 2)));
    assert_eq!(app.pane_id_map.daemon_for_local(2), Some(11));
    assert_eq!(
        app.effects,
        vec![select(11), Effect::RelayoutAndRedraw, Effect::PublishWorkspaceState]
    );
}

#[test]
fn a_pane_that_cannot_be_shown_is_killed() {
    let mut app = daemon_app(leaf(1), 1);
    app.finish_mount(
        1,
        SplitDirection::Horizontal,
        11,
        None,
        DaemonSplitOnComplete::FocusAndRelayout,
    );
    assert_eq!(app.effects, vec![Effect::Notify(IpcRequest::KillPane { pane_id: 11 })]);
    assert_eq!(app.pane_id_map.daemon_for_local(1), None);
}

#[test]
fn failed_splits_have_reasons() {
    let reason = |a: RpcAttempt| split_answer(a).unwrap_err();
    assert_eq!(
        reason(answered(IpcResponse::Error { message: "full".to_string() }, "Error")),
        "full"
    );
    assert_eq!(reason(answered(IpcResponse::Other, "Pong")), "unexpected response: Pong");
    assert_eq!(
        reason(answered(IpcResponse::PaneKilled, "PaneKilled")),
        "unexpected response: PaneKilled"
    );
    assert_eq!(reason(RpcAttempt::Failed("io".to_string())), "rpc error: io");
    assert_eq!(reason(RpcAttempt::TimedOut), "rpc timed out after 5s");
    let mut app = daemon_app(leaf(1), 1);
    let step = app.finish_split_pane_remote(DaemonSplitResult {
        source_local: 1,
        direction: SplitDirection::Vertical,
        rpc_result: Err("full".to_string()),
        inherited_cwd: None,
        on_complete: DaemonSplitOnComplete::FocusAndRelayout,
    });
    assert_eq!(step, MountStep::Done);
    assert_eq!(app.effects, vec![Effect::Toast(Notice::DaemonSplitFailed)]);
}

#[test]
fn keys_are_typed_into_the_new_pane() {
    let mut app = daemon_app(leaf(1), 1);
    app.finish_mount(
        1,
        SplitDirection::Vertical,
        11,
        Some(pane(2)),
        DaemonSplitOnComplete::WriteBytesAndFocus {
            bytes: b"ls\n".to_vec(),
            toast: Some("ready".to_string()),
        },
    );
    assert_eq!(
        app.effects[app.effects.len() - 2..],
        [
            Effect::Toast(Notice::Text("ready".to_string())),
            Effect::Ask(IpcRequest::SendKeys { pane_id: 11, keys: b"ls\n".to_vec() }),
        ]
    );
}

#[test]
fn a_subagent_of_the_daemon_is_followed() {
    let mut app = daemon_app(leaf(1), 1);
    app.finish_mount(
        1,
        SplitDirection::Vertical,
        11,
        Some(pane(2)),
        DaemonSplitOnComplete::SwarmTail {
            agent_id: "a".to_string(),
            jsonl_path: "/it's.jsonl".to_string(),
        },
    );
    assert!(app.swarm_panes.contains_key("a"));
    let keys = b"clear && tail --lines=+1 -F '/it'\\''s.jsonl'\n".to_vec();
    assert_eq!(app.effects[0], Effect::Ask(IpcRequest::SendKeys { pane_id: 11, keys }));
    assert_eq!(app.focused_pane(), Some(1));
}

#[test]
fn an_editor_goes_with_the_split_of_the_daemon() {
    let mut app = daemon_app(leaf(1), 1);
    app.pane_id_map.insert(1, 10);
    match app.open_in_wsl_pane_editor("a.rs", None, wide) {
        EditorStep::InDaemon(SplitStep::AskDaemon { on_complete, .. }) => assert_eq!(
            on_complete,
            DaemonSplitOnComplete::WriteBytesAndFocus {
                bytes: b"clear && exec ${EDITOR:-${VISUAL:-nvim}} a.rs +1\n".to_vec(),
                toast: None,
            }
        ),
        other => panic!("expected a split of the daemon, got {other:?}"),
    }
}

#[test]
fn a_new_workspace_comes_from_a_split() {
    let mut app = daemon_app(leaf(1), 1);
    assert_eq!(app.switch_workspace(2), SwitchStep::FreshSession { workspace: 2 });
    app.pane_id_map.insert(1, 10);
    let step = app.switch_workspace(2);
    assert_eq!(
        step,
        SwitchStep::Split(SplitStep::AskDaemon {
            source: 1,
            daemon_source: 10,
            direction: SplitDirection::Horizontal,
            on_complete: DaemonSplitOnComplete::NewWorkspace { workspace_id: 2 },
        })
    );
    assert_eq!(app.switch_workspace(1), SwitchStep::Done);
    assert_eq!(app.switch_workspace(10), SwitchStep::Done);
    app.workspaces.as_mut().unwrap().ids = vec![1, 2];
    assert_eq!(app.switch_workspace(2), SwitchStep::SwitchTo { workspace: 2 });
    assert_eq!(
        app.finish_new_workspace_remote(12, 2),
        MountStep::BuildWorkspace { daemon_pane: 12, workspace_id: 2 }
    );
    assert_eq!(app.workspace_pane_built(12, None), None);
    assert_eq!(
        app.effects,
        vec![
            Effect::Notify(IpcRequest::KillPane { pane_id: 12 }),
            Effect::Toast(Notice::NewTabFailed),
        ]
    );
}

#[test]
fn the_moving_pane_is_never_split() {
    let mut app = daemon_app(leaf(1), 1);
    app.pane_id_map.insert(1, 10);
    assert_eq!(app.send_to_workspace(3), SendStep::ReplaceFreshSession { pane: 1, workspace: 3 });
    let mut other = daemon_app(leaf(1), 1);
    other.pane_id_map.insert(1, 10);
    other.pane_id_map.insert(7, 70);
    other.pane_id_map.insert(8, 80);
    assert_eq!(
        other.send_to_workspace(3),
        SendStep::ReplaceOffExisting { pane: 1, workspace: 3, anchor: 70 }
    );
    other.finish_send_to_workspace(1, 3, None, Some(pane(7)));
    assert_eq!(other.effects, vec![Effect::Ask(IpcRequest::KillPane { pane_id: 70 })]);
    other.effects.clear();
    other.finish_send_to_workspace(1, 3, Some(workspaces(leaf(9), 9)), None);
    assert_eq!(
        other.effects,
        vec![
            Effect::Ask(IpcRequest::MovePane { pane_id: 10, target_workspace_id: 3 }),
            Effect::RelayoutAndRedraw,
            Effect::PublishWorkspaceState,
        ]
    );
}

#[test]
fn pins_are_told_to_the_daemon() {
    let mut app = daemon_app(split(leaf(1), leaf(2)), 2);
    app.pane_id_map.insert(2, 20);
    app.toggle_pin_focused_pane();
    app.toggle_pin_focused_pane();
    assert_eq!(
        app.effects,
        vec![
            Effect::Ask(IpcRequest::TagPinned { pane_id: 20 }),
            Effect::RequestRedraw,
            Effect::Ask(IpcRequest::UntagPinned { pane_id: 20 }),
            Effect::RequestRedraw,
        ]
    );
}

#[test]
fn leaves_come_from_the_daemon() {
    let mut app = daemon_app(leaf(1), 1);
    assert_eq!(app.leaf_source(None), LeafSource::FreshSession);
    assert_eq!(app.leaf_source(Some(70)), LeafSource::OffExisting { anchor: 70 });
    app.pane_id_map.insert(1, 10);
    assert_eq!(app.leaf_source(None), LeafSource::OffExisting { anchor: 10 });
    assert_eq!(app.leaf_source(Some(70)), LeafSource::OffExisting { anchor: 70 });
    assert_eq!(
        app.off_existing_answered(Ok(IpcResponse::PaneSplit { new_pane_id: 12 })),
        Some(12)
    );
    assert_eq!(app.off_existing_built(12, Some(pane(3))), Some(pane(3)));
    assert_eq!(app.pane_id_map.daemon_for_local(3), Some(12));
}

fn info(id: u8, layout: DaemonLayout) -> WorkspaceInfo {
    WorkspaceInfo { id, layout: Some(layout), pane_ids: vec![99] }
}

#[test]
fn the_difference_to_the_daemon() {
    let tree = || DaemonLayout::Split {
        direction: SplitDirection::Horizontal,
        ratio: Ratio { bits: HALF_BITS },
        first: Box::new(DaemonLayout::Leaf { pane_id: 10 }),
        second: Box::new(DaemonLayout::Leaf { pane_id: 11 }),
    };
    let diff = pane_diff(&vec![info(1, tree())], &vec![10, 30]);
    assert_eq!((diff.new, diff.removed), (vec![11], vec![30]));
    let listed = IpcResponse::Panes { panes: vec![PaneSummary { pane_id: 11, pinned: true }] };
    let panes = answered(listed, "Panes");
    let plan = build_reconcile_result(vec![info(1, tree())], 1, &vec![10, 30], panes);
    assert_eq!(plan.new_panes, vec![NewPane { daemon: 11, pinned: true }]);
    assert_eq!(plan.removed_daemon_ids, vec![30]);
    let silent =
        build_reconcile_result(vec![info(1, tree())], 1, &vec![10, 30], RpcAttempt::TimedOut);
    assert_eq!(silent.new_panes, vec![NewPane { daemon: 11, pinned: false }]);
}

#[test]
fn an_unknown_state_is_an_error() {
    let error = |a: RpcAttempt| workspaces_answer(a).unwrap_err();
    assert_eq!(error(RpcAttempt::TimedOut), ReconcileError::TimedOut);
    assert_eq!(error(RpcAttempt::TimedOut).message(), "GetWorkspaces timed out");
    assert_eq!(error(RpcAttempt::Failed("io".to_string())).message(), "io");
    let refused = IpcResponse::Error { message: "no".to_string() };
    assert_eq!(error(answered(refused, "Error")).message(), "GetWorkspaces failed: no");
    let other = error(answered(IpcResponse::PaneKilled, "PaneKilled"));
    assert_eq!(other, ReconcileError::Unexpected("PaneKilled".to_string()));
    assert_eq!(other.message(), "unexpected GetWorkspaces response: PaneKilled");
}

#[test]
fn panes_are_reused_when_the_daemon_changes() {
    let mut app = daemon_app(split(leaf(1), leaf(2)), 1);
    app.pane_id_map.insert(1, 10);
    app.pane_id_map.insert(2, 20);
    assert_eq!(app.handle_daemon_workspace_changed(6), None);
    let known = app.handle_daemon_workspace_changed(5).unwrap();
    assert_eq!(known.len(), 2);
    assert_eq!(app.reconcile_pane(1, &vec![20]), PaneFate::Reuse { daemon_pane: 10 });
    assert_eq!(app.reconcile_pane(2, &vec![20]), PaneFate::Drop);
    assert_eq!(app.reconcile_pane(8, &vec![20]), PaneFate::Unknown);
    assert_eq!(app.pane_id_map.daemon_for_local(2), None);
    let mut pool = PanePool {
        existing: vec![(10, pane(1))],
        fresh: vec![(11, pane(3))],
        taken: Vec::new(),
    };
    assert_eq!(pool.make_leaf(10), Some(pane(1)));
    assert_eq!(pool.make_leaf(11), Some(pane(3)));
    assert_eq!(pool.make_leaf(10), None);
    assert_eq!(pool.taken, vec![(1, 10), (3, 11)]);
    app.apply_reconcile_result(Some(workspaces(split(leaf(1), leaf(3)), 1)), &pool.taken);
    assert_eq!(app.pane_id_map.daemon_for_local(3), Some(11));
    assert_eq!(app.effects, vec![Effect::RelayoutAndRedraw]);
}

#[test]
fn a_page_is_acknowledged() {
    let mut app = daemon_app(leaf(1), 1);
    app.handle_daemon_webview_spawn(4, Ok(2));
    app.handle_daemon_webview_spawn(5, Err(WebViewError::EmptyUrl));
    assert_eq!(
        app.effects,
        vec![
            Effect::Ask(IpcRequest::AckWebViewPaneSpawn {
                request_id: 4,
                pane_id: Some(2),
                error: None,
            }),
            Effect::Ask(IpcRequest::AckWebViewPaneSpawn {
                request_id: 5,
                pane_id: None,
                error: Some(WebViewError::EmptyUrl),
            }),
        ]
    );
    assert_eq!(WebViewError::NoFocusedPane.message(), "no focused pane to split from");
    assert_eq!(WebViewError::EmptyUrl.message(), "url is empty");
    assert_eq!(WebViewError::SplitFailed.message(), "failed to split for webview pane");
    assert_eq!(WebViewError::NoWindow.message(), "no active window to attach webview to");
    assert_eq!(
        WebViewError::NativeFailed("x".to_string()).message(),
        "failed to create native webview: x"
    );
}

#[test]
fn a_workspace_that_was_switched_to_is_shown() {
    let mut app = daemon_app(leaf(1), 1);
    app.workspace_switched(None);
    assert_eq!(app.effects, vec![]);
    let other = || Workspaces { active_id: 2, ids: vec![1, 2], layout: leaf(7), focused: Some(7) };
    app.workspace_switched(Some(other()));
    assert_eq!(app.workspaces, Some(other()));
    assert_eq!(app.effects, vec![Effect::RelayoutAndRedraw, Effect::PublishWorkspaceState]);
}

#[test]
fn a_first_pane_of_a_new_session() {
    let mut app = daemon_app(leaf(1), 1);
    app.daemon_session_id = None;
    assert!(app.can_start_session());
    let failed = app.spawn_remote_pane_fresh_session(Err("no".to_string()));
    assert_eq!(failed, None);
    assert_eq!(app.effects, vec![Effect::Toast(Notice::SessionCreateFailed)]);
    let made = app.spawn_remote_pane_fresh_session(Ok((pane(9), 5, 90)));
    assert_eq!(made, Some(pane(9)));
    assert_eq!(app.daemon_session_id, Some(5));
    assert_eq!(app.pane_id_map.daemon_for_local(9), Some(90));
    let again = app.spawn_remote_pane_fresh_session(Ok((pane(10), 6, 91)));
    assert_eq!(again, Some(pane(10)));
    assert_eq!(app.daemon_session_id, Some(5));
    app.has_renderer = false;
    assert!(!app.can_start_session());
    app.effects.clear();
    assert_eq!(app.spawn_remote_pane_fresh_session(Ok((pane(11), 7, 92))), None);
    assert_eq!(app.effects, vec![Effect::Toast(Notice::SessionCreateFailed)]);
    assert_eq!(app.pane_id_map.daemon_for_local(11), None);
}

#[test]
fn a_pane_next_to_one_of_the_daemon() {
    let app = daemon_app(leaf(1), 1);
    assert_eq!(
        app.spawn_remote_pane_off_existing(40),
        IpcRequest::SplitPane { pane_id: 40, horizontal: true, cwd: None }
    );
}

#[test]
fn panes_of_the_daemon_are_laid_out_once() {
    let mut app = daemon_app(leaf(1), 1);
    app.pane_id_map.insert(1, 10);
    let mut left = 2;
    while left > 0 {
        let step = app.spawn_n_panes(left, wide);
        let (source, daemon_source, direction) = match step {
            SpawnStep::Split {
                step: SplitStep::AskDaemon { source, daemon_source, direction, on_complete },
                ..
            } => {
                assert_eq!(on_complete, DaemonSplitOnComplete::FocusAndRelayout);
                (source, daemon_source, direction)
            }
            other => panic!("expected a split of the daemon, got {other:?}"),
        };
        let built = pane(source + 1);
        left = app.finish_spawn_mount(left, source, direction, daemon_source + 10, Some(built));
    }
    assert_eq!(app.workspaces.as_ref().unwrap().layout.pane_ids(), vec![1, 2, 3]);
    assert_eq!(app.pane_id_map.daemon_for_local(3), Some(30));
    assert_eq!(
        app.effects,
        vec![select(20), select(30), Effect::RelayoutAndRedraw, Effect::PublishWorkspaceState]
    );
    app.effects.clear();
    assert_eq!(app.finish_spawn_mount(1, 3, SplitDirection::Vertical, 40, None), 0);
    assert_eq!(
        app.effects,
        vec![
            Effect::Notify(IpcRequest::KillPane { pane_id: 40 }),
            Effect::RelayoutAndRedraw,
            Effect::PublishWorkspaceState,
        ]
    );
}

#[test]
fn an_editor_of_a_terminal_goes_with_the_split_of_the_daemon() {
    let mut app = daemon_app(leaf(1), 1);
    app.pane_id_map.insert(1, 10);
    let plan = OpenInEditorPlan::SpawnInPane {
        editor: "vim".to_string(),
        path: "/a.rs".to_string(),
        line: "5".to_string(),
    };
    let never = |_: &String, _: &String, _: &String| -> bool { panic!("no process") };
    match app.carry_out_plan(plan, never, |_: &String| panic!("no file"), wide) {
        Some(EditorStep::InDaemon(SplitStep::AskDaemon { on_complete, .. })) => assert_eq!(
            on_complete,
            DaemonSplitOnComplete::WriteBytesAndFocus {
                bytes: b"clear && exec vim +5 '/a.rs'\n".to_vec(),
                toast: None,
            }
        ),
        other => panic!("expected a split of the daemon, got {other:?}"),
    }
    assert!(!app.effects.iter().any(|e| matches!(e, Effect::Toast(_))));
}

#[test]
fn a_new_pane_of_the_daemon_without_a_place_is_given_up() {
    let mut app = daemon_app(leaf(1), 1);
    let result = |source_local: PaneId, on_complete: DaemonSplitOnComplete| DaemonSplitResult {
        source_local,
        direction: SplitDirection::Vertical,
        rpc_result: Ok(11),
        inherited_cwd: None,
        on_complete,
    };
    let kill = Effect::Notify(IpcRequest::KillPane { pane_id: 11 });
    let gone = result(9, DaemonSplitOnComplete::FocusAndRelayout);
    assert_eq!(app.finish_split_pane_remote(gone), MountStep::Done);
    assert_eq!(app.effects, vec![kill]);
    app.effects.clear();
    app.has_layout_rect = false;
    let tab = result(1, DaemonSplitOnComplete::NewWorkspace { workspace_id: 2 });
    assert_eq!(app.finish_split_pane_remote(tab), MountStep::Done);
    assert_eq!(app.effects, vec![Effect::Notify(IpcRequest::KillPane { pane_id: 11 })]);
    app.effects.clear();
    app.has_renderer = false;
    let split = Ok(IpcResponse::PaneSplit { new_pane_id: 12 });
    assert_eq!(app.off_existing_answered(split), None);
    assert_eq!(app.effects, vec![Effect::Ask(IpcRequest::KillPane { pane_id: 12 })]);
}
