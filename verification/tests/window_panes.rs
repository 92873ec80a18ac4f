use therminal_window::hotspot::CellMap;
use therminal_window::ids::PaneIdMap;
use therminal_window::layout::{LayoutNode, PaneId, PaneState, Ratio, SplitDirection};
use therminal_window::swarm_panes::SwarmPanes;
use therminal_window::layout_ops::{FocusDirection, HALF_BITS};
use therminal_window::window::close::{CloseStep, Removal};
use therminal_window::window::editing::EditorStep;
use therminal_window::window::focus::SwapStep;
use therminal_window::window::pointer::{Pointer, Screen};
use therminal_window::window::restore::{
    rebuild_from_snapshot, LayoutSnapshot, LeafSource, RestoreStep,
};
use therminal_window::window::spawn::SpawnStep;
use therminal_window::window::split::{tail_size, terminal_size, SplitStep};
use therminal_window::window::swarm::{
    notification_event, NotificationSource, SubagentStep, SwarmWatcherEvent, UserEvent,
};
use therminal_window::window::tail::TailStep;
use therminal_window::window::tile::{AutoTileAction, TileStep};
use therminal_window::window::workspace::{SendStep, SwitchStep};
use therminal_window::window::{App, Effect, NewPaneCwd, Notice, Workspaces};
use therminal_window::editor::OpenInEditorPlan;
use therminal_window::ipc::WebViewError;

fn pane(id: PaneId) -> PaneState {
    PaneState { id, pinned: false, cwd: None, claude_session_id: None }
}

fn leaf(id: PaneId) -> LayoutNode {
    LayoutNode::Leaf(pane(id))
}

fn split(first: LayoutNode, second: LayoutNode) -> LayoutNode {
    LayoutNode::Split {
        direction: SplitDirection::Horizontal,
        ratio: Ratio { bits: HALF_BITS },
        first: Box::new(first),
        second: Box::new(second),
    }
}

fn workspaces(layout: LayoutNode, focused: PaneId) -> Workspaces {
    Workspaces { active_id: 1, ids: vec![1], layout, focused: Some(focused) }
}

fn app(layout: LayoutNode, focused: PaneId) -> App {
    App {
        attach_remote: false,
        daemon_client: false,
        daemon_runtime: false,
        daemon_session_id: None,
        has_renderer: true,
        has_window: true,
        has_layout_rect: true,
        auto_tile_debouncer: true,
        swarm_debouncer_tx: true,
        new_pane_cwd: NewPaneCwd::Inherit,
        pane_id_map: PaneIdMap::new(),
        workspaces: Some(workspaces(layout, focused)),
        zoomed_layout: None,
        last_close_action: None,
        last_split_direction: SplitDirection::Vertical,
        scrollback_compact_countdown: 0,
        swarm_panes: SwarmPanes::new(),
        selection_pane: None,
        selection_in_progress: false,
        screen: Screen {
            use_csd: false,
            show_pane_headers: true,
            surface: Some((800, 600)),
            pointer: Pointer {
                cursor_known: true,
                left_held: false,
                drag_pane: None,
                last_click_time: None,
                last_click_pos: None,
                click_count: 0,
                separator_cursor_active: false,
                edge_cursor_active: false,
                hyperlink_cursor_active: false,
            },
            separator_drag: None,
            hyperlinks: CellMap::new(),
            hotspots: CellMap::new(),
        },
        effects: Vec::new(),
    }
}

fn wide(_: PaneId, other: SplitDirection) -> SplitDirection {
    other
}

fn ids(app: &App) -> Vec<PaneId> {
    app.workspaces.as_ref().map(|w| w.layout.pane_ids()).unwrap_or_default()
}

#[test]
fn zoom_shows_one_pane_and_comes_back() {
    let before = split(leaf(1), split(leaf(2), leaf(3)));
    let mut app = app(split(leaf(1), split(leaf(2), leaf(3))), 2);
    app.zoom_toggle_focused_pane();
    assert_eq!(ids(&app), vec![2]);
    assert_eq!(app.zoomed_layout, Some(split(leaf(1), split(LayoutNode::Empty, leaf(3)))));
    app.zoom_toggle_focused_pane();
    assert_eq!(app.workspaces, Some(workspaces(before, 2)));
    assert_eq!(app.zoomed_layout, None);
    assert_eq!(app.effects, vec![Effect::RelayoutAndRedraw, Effect::RelayoutAndRedraw]);
}

#[test]
fn a_single_pane_is_not_zoomed() {
    let mut app = app(leaf(1), 1);
    app.zoom_toggle_focused_pane();
    assert_eq!(app.zoomed_layout, None);
    assert!(app.effects.is_empty());
}

#[test]
fn closing_twice_within_the_cooldown_closes_once() {
    let mut app = app(split(leaf(1), leaf(2)), 2);
    assert_eq!(app.close_focused_pane(1000), CloseStep::Remove { pane: 2 });
    assert_eq!(app.last_close_action, Some(1000));
    assert_eq!(app.close_focused_pane(1099), CloseStep::Done);
    assert_eq!(app.close_focused_pane(1100), CloseStep::Remove { pane: 2 });
}

#[test]
fn closing_moves_the_focus_to_the_first_pane() {
    let mut app = app(split(leaf(1), split(leaf(2), leaf(3))), 2);
    assert_eq!(app.close_focused_pane(0), CloseStep::Remove { pane: 2 });
    app.finish_close_focused_pane(Removal::Removed {
        workspaces: workspaces(split(leaf(1), leaf(3)), 2),
    });
    assert_eq!(app.focused_pane(), Some(1));
    assert_eq!(app.effects, vec![Effect::RelayoutAndRedraw, Effect::PublishWorkspaceState]);
}

#[test]
fn closing_another_pane_keeps_the_focus() {
    let mut app = app(split(leaf(1), split(leaf(2), leaf(3))), 2);
    assert_eq!(app.close_pane_by_id(3, 0), CloseStep::Remove { pane: 3 });
    app.finish_close_pane_by_id(3, Removal::Removed {
        workspaces: workspaces(split(leaf(1), leaf(2)), 2),
    });
    assert_eq!(app.focused_pane(), Some(2));
    app.finish_close_pane_by_id(9, Removal::NotFound);
    assert_eq!(ids(&app), vec![1, 2]);
}

#[test]
fn closing_the_last_pane_ends_the_window() {
    let mut app = app(leaf(1), 1);
    app.finish_close_focused_pane(Removal::LastInWorkspace { remaining: None });
    assert_eq!(app.workspaces, None);
    assert_eq!(app.effects, vec![Effect::RequestRedraw, Effect::PublishWorkspaceState]);
}

#[test]
fn closing_everything_forgets_the_selection() {
    let mut app = app(split(leaf(1), leaf(2)), 1);
    app.selection_pane = Some(1);
    app.selection_in_progress = true;
    assert!(app.close_all_panes(0));
    assert!(!app.close_all_panes(50));
    app.finish_close_all_panes(Some(workspaces(leaf(7), 7)));
    assert_eq!(ids(&app), vec![7]);
    assert_eq!(app.selection_pane, None);
    assert!(!app.selection_in_progress);
}

#[test]
fn focus_goes_around() {
    let mut app = app(split(leaf(1), split(leaf(2), leaf(3))), 3);
    app.move_focus(FocusDirection::Next);
    assert_eq!(app.focused_pane(), Some(1));
    app.move_focus(FocusDirection::Prev);
    assert_eq!(app.focused_pane(), Some(3));
    app.move_focus_spatial(Some(2));
    assert_eq!(app.focused_pane(), Some(2));
    app.move_focus_spatial(None);
    assert_eq!(app.focused_pane(), Some(2));
}

#[test]
fn swapping_panes_keeps_the_tree() {
    let mut app = app(split(leaf(1), split(leaf(2), leaf(3))), 1);
    assert_eq!(app.swap_focused_pane(FocusDirection::Next), SwapStep::Done);
    assert_eq!(ids(&app), vec![2, 1, 3]);
    assert_eq!(app.swap_focused_pane(FocusDirection::Prev), SwapStep::Done);
    assert_eq!(ids(&app), vec![1, 2, 3]);
}

#[test]
fn pinning_twice_unpins() {
    let mut app = app(split(leaf(1), leaf(2)), 2);
    let pinned = |app: &App| {
        app.workspaces.as_ref().unwrap().layout.find_pane(2).unwrap().pinned
    };
    app.toggle_pin_focused_pane();
    assert!(pinned(&app));
    app.toggle_pin_focused_pane();
    assert!(!pinned(&app));
}

#[test]
fn ratios_are_reset_to_one_half() {
    let mut tree = split(leaf(1), leaf(2));
    tree.set_ratio_at_path(&vec![], Ratio { bits: 0x3e80_0000 });
    let mut app = app(tree, 1);
    app.reset_all_ratios();
    assert_eq!(app.workspaces.as_ref().unwrap().layout, split(leaf(1), leaf(2)));
    assert_eq!(app.effects, vec![Effect::LayoutPanes, Effect::ResizePanes, Effect::RequestRedraw]);
}

#[test]
fn a_local_split_focuses_the_new_pane() {
    let mut app = app(leaf(1), 1);
    let step = app.split_focused_pane(SplitDirection::Horizontal);
    assert_eq!(
        step,
        SplitStep::SpawnLocal { source: 1, direction: SplitDirection::Horizontal }
    );
    app.finish_split_local(1, SplitDirection::Horizontal, Some(pane(2)));
    assert_eq!(app.workspaces, Some(workspaces(split(leaf(1), leaf(2)), 2)));
    assert_eq!(app.last_split_direction, SplitDirection::Horizontal);
}

#[test]
fn a_split_that_could_not_start_changes_nothing() {
    let mut app = app(leaf(1), 1);
    app.finish_split_local(1, SplitDirection::Horizontal, None);
    assert_eq!(ids(&app), vec![1]);
    assert_eq!(app.focused_pane(), Some(1));
    assert_eq!(app.split_pane_by_id(9, SplitDirection::Vertical), SplitStep::Done);
}

#[test]
fn the_direction_of_an_automatic_split_alternates() {
    let mut app = app(leaf(1), 1);
    let step = app.split_focused_pane_auto(wide);
    assert_eq!(
        step,
        SplitStep::SpawnLocal { source: 1, direction: SplitDirection::Horizontal }
    );
}

#[test]
fn panes_have_a_least_size() {
    assert_eq!(terminal_size(0, 0), (2, 1));
    assert_eq!(terminal_size(80, 24), (80, 24));
    assert_eq!(tail_size(5, 1), (20, 3));
}

#[test]
fn many_panes_are_laid_out_once() {
    let mut app = app(split(leaf(1), leaf(2)), 2);
    app.zoom_toggle_focused_pane();
    app.effects.clear();
    let mut left = 3;
    let mut next = 3;
    while left > 0 {
        match app.spawn_n_panes(left, wide) {
            SpawnStep::Split { left: n, step: SplitStep::SpawnLocal { source, direction } } => {
                assert_eq!((n, source), (left, next - 1));
                left = app.finish_spawn_step(left, source, direction, Some(pane(next)));
            }
            other => panic!("expected a local split, got {other:?}"),
        }
        assert_eq!(app.focused_pane(), Some(next));
        next += 1;
    }
    assert_eq!(ids(&app), vec![1, 2, 3, 4, 5]);
    assert_eq!(app.zoomed_layout, None);
    assert_eq!(app.effects, vec![Effect::RelayoutAndRedraw, Effect::PublishWorkspaceState]);
}

#[test]
fn many_panes_need_a_workspace() {
    let mut app = app(leaf(1), 1);
    assert_eq!(app.spawn_n_panes(0, wide), SpawnStep::Done);
    app.workspaces.as_mut().unwrap().focused = None;
    assert_eq!(
        app.spawn_n_panes(4, wide),
        SpawnStep::Split { left: 4, step: SplitStep::Done }
    );
    app.workspaces = None;
    assert_eq!(app.spawn_n_panes(4, wide), SpawnStep::Done);
    assert!(app.effects.is_empty());
}

#[test]
fn a_pane_that_did_not_start_is_counted() {
    let mut app = app(leaf(1), 1);
    assert_eq!(app.finish_spawn_step(3, 1, SplitDirection::Vertical, None), 2);
    assert_eq!(app.effects, vec![Effect::RequestRedraw]);
    assert_eq!(app.end_spawn_step(2), 1);
    assert_eq!(app.effects.len(), 1);
    assert_eq!(app.finish_spawn_step(1, 9, SplitDirection::Vertical, Some(pane(2))), 0);
    assert_eq!(
        app.effects[1..],
        [Effect::RequestRedraw, Effect::RelayoutAndRedraw, Effect::PublishWorkspaceState]
    );
    assert_eq!(ids(&app), vec![1]);
}

#[test]
fn a_new_workspace_gets_the_lowest_free_number() {
    let mut app = app(leaf(1), 1);
    app.workspaces.as_mut().unwrap().ids = vec![1, 2, 4];
    assert_eq!(app.create_new_workspace(), SwitchStep::SwitchOrSpawn { workspace: 3 });
    app.workspaces.as_mut().unwrap().ids = (1..=9).collect();
    assert_eq!(app.create_new_workspace(), SwitchStep::Done);
}

#[test]
fn switching_leaves_zoom_first() {
    let mut app = app(split(leaf(1), leaf(2)), 2);
    app.zoom_toggle_focused_pane();
    assert_eq!(app.switch_workspace(3), SwitchStep::SwitchOrSpawn { workspace: 3 });
    assert_eq!(app.zoomed_layout, None);
    assert_eq!(ids(&app), vec![1, 2]);
}

#[test]
fn sending_a_pane_without_the_daemon() {
    let app = app(split(leaf(1), leaf(2)), 2);
    assert_eq!(app.send_to_workspace(4), SendStep::MoveOrSpawn { pane: 2, workspace: 4 });
}

#[test]
fn a_saved_layout_is_rebuilt_with_new_panes() {
    let mut app = app(leaf(1), 1);
    let saved = || LayoutSnapshot::Split {
        direction: SplitDirection::Horizontal,
        ratio: Ratio { bits: HALF_BITS },
        first: Box::new(LayoutSnapshot::Leaf),
        second: Box::new(LayoutSnapshot::Leaf),
    };
    match app.restore_layout(Some(saved())) {
        RestoreStep::Rebuild(snapshot) => {
            assert_eq!(app.leaf_source(None), LeafSource::Local);
            assert_eq!(snapshot.leaf_count(), Some(2));
            let few = vec![pane(8)];
            let enough = vec![pane(8), pane(9)];
            assert_eq!(rebuild_from_snapshot(&snapshot, &few), None);
            let tree = rebuild_from_snapshot(&snapshot, &enough);
            assert_eq!(tree, Some(split(leaf(8), leaf(9))));
            app.finish_restore_layout(tree);
        }
        other => panic!("expected a tree to rebuild, got {other:?}"),
    }
    assert_eq!(app.workspaces, Some(workspaces(split(leaf(8), leaf(9)), 8)));
    assert_eq!(app.effects, vec![Effect::RelayoutAndRedraw]);
}

#[test]
fn compacting_closes_holes() {
    let mut app = app(split(LayoutNode::Empty, split(leaf(1), leaf(2))), 1);
    app.workspaces.as_mut().unwrap().layout.compact_layout();
    assert_eq!(app.workspaces.as_ref().unwrap().layout, split(leaf(1), leaf(2)));
}

#[test]
fn activity_splits_the_largest_pane() {
    let mut app = app(split(leaf(1), leaf(2)), 1);
    let step = app.poll_auto_tile(
        AutoTileAction::Split { parent_pane_id: 1 },
        |_: &LayoutNode| Some(2),
        wide,
        0,
    );
    match step {
        TileStep::Split { parent: 1, step: SplitStep::SpawnLocal { source: 2, direction } } => {
            app.finish_auto_tile_local(1, 2, direction, Some(pane(3)));
        }
        other => panic!("expected a split, got {other:?}"),
    }
    assert_eq!(app.focused_pane(), Some(1));
    assert!(ids(&app).contains(&3));
    assert!(app.effects.contains(&Effect::RegisterAutoTiled { parent: 1, pane: 3 }));
}

#[test]
fn reclaiming_a_pane_closes_it() {
    let mut app = app(split(leaf(1), leaf(2)), 1);
    let step = app.poll_auto_tile(
        AutoTileAction::Reclaim { pane_id: 2 },
        |_: &LayoutNode| None,
        wide,
        10,
    );
    assert_eq!(step, TileStep::Close { pane: 2, step: CloseStep::Remove { pane: 2 } });
}

#[test]
fn a_subagent_has_one_pane_at_most() {
    let mut app = app(leaf(1), 1);
    let spawn = |app: &mut App| {
        app.poll_swarm_watcher(
            SwarmWatcherEvent::SpawnSubagent {
                agent_id: "a".to_string(),
                jsonl_path: Some("/t.jsonl".to_string()),
            },
            |_: &LayoutNode| Some(1),
            wide,
            0,
        )
    };
    match spawn(&mut app) {
        SubagentStep::Spawn { agent_id, source: 1, direction, .. } => {
            app.finish_spawn_subagent(agent_id, 1, direction, Some(pane(2)));
        }
        other => panic!("expected a pane to make, got {other:?}"),
    }
    assert!(app.swarm_panes.contains_key("a"));
    assert_eq!(spawn(&mut app), SubagentStep::Done);
    let step = app.poll_swarm_watcher(
        SwarmWatcherEvent::ReclaimSubagent { agent_id: "a".to_string() },
        |_: &LayoutNode| None,
        wide,
        500,
    );
    assert_eq!(step, SubagentStep::Close { pane: 2, step: CloseStep::Remove { pane: 2 } });
    assert!(!app.swarm_panes.contains_key("a"));
}

#[test]
fn callbacks_name_their_pane() {
    let callbacks = therminal_window::window::swarm::make_pane_callbacks(6);
    assert_eq!(callbacks.wake, UserEvent::PtyOutput);
    assert_eq!(callbacks.on_exit, UserEvent::PaneExited(6));
    assert_eq!(callbacks.on_bell, UserEvent::Bell(6));
}

#[test]
fn a_transcript_needs_a_session() {
    let mut app = app(leaf(1), 1);
    assert_eq!(app.open_focused_agent_event_log_tail(), TailStep::Done);
    assert_eq!(app.effects, vec![Effect::Toast(Notice::NoTranscript)]);
    let mut with = pane(1);
    with.claude_session_id = Some("s".to_string());
    app.workspaces.as_mut().unwrap().layout = LayoutNode::Leaf(with);
    assert_eq!(
        app.open_focused_agent_event_log_tail(),
        TailStep::FindTranscript { source: 1, session_id: "s".to_string() }
    );
    assert_eq!(app.transcript_found(1, None), TailStep::Done);
    assert_eq!(
        app.transcript_found(1, Some("/p".to_string())),
        TailStep::OpenTail { source: 1, path: "/p".to_string() }
    );
    app.finish_open_tail(1, SplitDirection::Horizontal, Some(pane(2)));
    assert_eq!(ids(&app), vec![1, 2]);
    assert_eq!(app.focused_pane(), Some(1));
}

#[test]
fn a_page_that_fails_leaves_no_trace() {
    let mut app = app(leaf(1), 1);
    assert_eq!(
        app.create_webview_pane("", SplitDirection::Horizontal, pane(2)),
        Err(WebViewError::EmptyUrl)
    );
    assert_eq!(
        app.create_webview_pane("https://a.example", SplitDirection::Horizontal, pane(2)),
        Ok(2)
    );
    let failed = app.finish_create_webview_pane(
        2,
        SplitDirection::Horizontal,
        Err("no backend".to_string()),
    );
    assert!(failed.is_err());
    assert_eq!(ids(&app), vec![1]);
    assert_eq!(app.focused_pane(), Some(1));
}

#[test]
fn an_editor_runs_in_the_pane_that_was_opened_for_it() {
    let mut app = app(leaf(1), 1);
    let step = app.open_in_wsl_pane_editor("~/a.rs:42:7", Some("/home/it's"), wide);
    match step {
        EditorStep::Local { step, original, command } => {
            assert_eq!(original, Some(1));
            assert_eq!(
                command,
                b"cd '/home/it'\\''s' && clear && exec ${EDITOR:-${VISUAL:-nvim}} ~/a.rs +42\n"
                    .to_vec()
            );
            assert!(matches!(step, SplitStep::SpawnLocal { source: 1, .. }));
            app.finish_split_local(1, SplitDirection::Horizontal, Some(pane(2)));
            app.effects.clear();
            app.finish_wsl_pane_editor(original, command.clone());
            assert_eq!(app.effects, vec![Effect::WritePty { pane: 2, bytes: command }]);
        }
        other => panic!("expected a local split, got {other:?}"),
    }
}

#[test]
fn an_editor_without_a_pane_is_told() {
    let mut app = app(leaf(1), 1);
    app.finish_wsl_pane_editor(Some(1), Vec::new());
    assert_eq!(app.effects, vec![Effect::Toast(Notice::EditorSplitFailed)]);
}

#[test]
fn failed_plans_are_told() {
    let mut app = app(leaf(1), 1);
    let spawn = || OpenInEditorPlan::Spawn {
        editor: "vim".to_string(),
        path: "/a".to_string(),
        line: "1".to_string(),
    };
    let fallback = || OpenInEditorPlan::OpenFallback { path: "/a".to_string() };
    let works = |_: &String, _: &String, _: &String| true;
    let fails = |_: &String, _: &String, _: &String| false;
    assert_eq!(app.carry_out_plan(spawn(), works, |_: &String| false, wide), None);
    assert_eq!(app.carry_out_plan(fallback(), fails, |_: &String| true, wide), None);
    assert!(app.effects.is_empty());
    assert_eq!(app.carry_out_plan(spawn(), fails, |_: &String| true, wide), None);
    assert_eq!(app.carry_out_plan(fallback(), works, |_: &String| false, wide), None);
    let gone = OpenInEditorPlan::Fail("gone".to_string());
    assert_eq!(app.carry_out_plan(gone, works, |_: &String| true, wide), None);
    let told: Vec<String> = app
        .effects
        .iter()
        .map(|e| match e {
            Effect::Toast(notice) => notice.message("an agent"),
            other => panic!("expected a toast, got {other:?}"),
        })
        .collect();
    assert_eq!(
        told,
        vec![
            "$EDITOR (vim) failed to launch",
            "no $EDITOR set, and fallback failed",
            "gone",
        ]
    );
}

#[test]
fn an_absolute_file_falls_back_to_the_desktop() {
    let mut app = app(leaf(1), 1);
    app.open_absolute_in_editor("/c".to_string(), Some("hx".to_string()), |_| true, |_| false);
    assert!(app.effects.is_empty());
    app.open_absolute_in_editor("/c".to_string(), Some("hx".to_string()), |_| false, |_| true);
    assert_eq!(
        app.effects,
        vec![Effect::Toast(Notice::EditorLaunchFailed("hx".to_string()))]
    );
    app.effects.clear();
    app.open_absolute_in_editor("/c".to_string(), None, |_| true, |_| false);
    assert_eq!(app.effects, vec![Effect::Toast(Notice::CouldNotOpen("/c".to_string()))]);
}

#[test]
fn notices_have_their_texts() {
    let text = |n: Notice| n.message("the agent");
    assert_eq!(text(Notice::KillFailed("x".to_string())), "kill failed: x");
    assert_eq!(text(Notice::DaemonKillFailed), "daemon kill failed");
    assert_eq!(text(Notice::SwapFailed("x".to_string())), "swap failed: x");
    assert_eq!(text(Notice::DaemonSwapFailed), "daemon swap failed");
    assert_eq!(text(Notice::SplitFailed("x".to_string())), "split failed: x");
    assert_eq!(text(Notice::DaemonSplitFailed), "daemon split failed");
    assert_eq!(text(Notice::NewTabFailed), "new tab failed");
    assert_eq!(text(Notice::SessionCreateFailed), "daemon session create failed");
    assert_eq!(text(Notice::NoTranscript), "no the agent session transcript found");
    assert_eq!(text(Notice::TailPaneFailed), "failed to open JSONL tail pane");
    assert_eq!(text(Notice::WebViewSplitFailed), "failed to split for webview pane");
    assert_eq!(text(Notice::WebViewFailed("x".to_string())), "WebView failed: x");
    assert_eq!(text(Notice::EditorSplitFailed), "failed to split pane for editor");
    assert_eq!(text(Notice::CouldNotOpen("/x".to_string())), "could not open /x");
    assert_eq!(text(Notice::NoErrorRegion), "no error region");
    assert_eq!(text(Notice::NoMoreRegion), "no more region");
    assert_eq!(text(Notice::Text("t".to_string())), "t");
}

fn is_sound(app: &App) -> bool {
    let Some(w) = &app.workspaces else {
        return true;
    };
    let ids = w.layout.pane_ids();
    let apart = ids.iter().enumerate().all(|(i, a)| ids[i + 1..].iter().all(|b| a != b));
    apart && w.focused.map(|id| ids.contains(&id)).unwrap_or(true)
}

#[test]
fn workspaces_stay_sound() {
    let mut app = app(split(leaf(1), leaf(2)), 1);
    app.finish_split_local(1, SplitDirection::Vertical, Some(pane(3)));
    assert_eq!(ids(&app), vec![1, 3, 2]);
    assert!(is_sound(&app));
    assert_eq!(app.swap_focused_pane(FocusDirection::Next), SwapStep::Done);
    assert_eq!(ids(&app), vec![1, 2, 3]);
    assert_eq!(app.focused_pane(), Some(3));
    assert!(is_sound(&app));
    app.move_focus(FocusDirection::Next);
    assert_eq!(app.focused_pane(), Some(1));
    app.zoom_toggle_focused_pane();
    assert!(is_sound(&app));
    app.zoom_toggle_focused_pane();
    app.reset_all_ratios();
    app.compact_after_reclaim();
    assert_eq!(ids(&app), vec![1, 2, 3]);
    assert!(is_sound(&app));
}

#[test]
fn removing_takes_one_pane() {
    let mut tree = split(leaf(1), split(leaf(2), leaf(3)));
    assert!(tree.remove_pane(2));
    assert_eq!(tree, split(leaf(1), leaf(3)));
    assert!(!tree.remove_pane(2));
    assert_eq!(tree, split(leaf(1), leaf(3)));
}

#[test]
fn pinning_twice_changes_nothing() {
    let mut app = app(split(leaf(1), leaf(2)), 2);
    app.toggle_pin_focused_pane();
    let pinned = app.workspaces.as_ref().and_then(|w| w.layout.find_pane(2)).map(|p| p.pinned);
    assert_eq!(pinned, Some(true));
    app.toggle_pin_focused_pane();
    assert_eq!(app.workspaces, Some(workspaces(split(leaf(1), leaf(2)), 2)));
}

#[test]
fn a_moved_split_is_shown() {
    let mut app = app(split(leaf(1), leaf(2)), 2);
    let moved = || LayoutNode::Split {
        direction: SplitDirection::Horizontal,
        ratio: Ratio { bits: 0.6f32.to_bits() },
        first: Box::new(leaf(1)),
        second: Box::new(leaf(2)),
    };
    app.adjust_focused_ratio(None);
    assert_eq!(app.effects, vec![]);
    app.adjust_focused_ratio(Some(moved()));
    assert_eq!(app.workspaces, Some(workspaces(moved(), 2)));
    assert_eq!(
        app.effects,
        vec![Effect::LayoutPanes, Effect::ResizePanes, Effect::RequestRedraw]
    );
    app.has_layout_rect = false;
    app.adjust_focused_ratio(Some(leaf(1)));
    assert_eq!(app.workspaces, Some(workspaces(moved(), 2)));
}

#[test]
fn sessions_are_collected_once_from_all_workspaces() {
    let agent = |id: PaneId, session: &str| {
        LayoutNode::Leaf(PaneState { claude_session_id: Some(session.to_string()), ..pane(id) })
    };
    let mut app = app(split(agent(1, "a"), split(leaf(2), agent(3, "b"))), 1);
    let hidden = vec![agent(4, "b"), agent(5, "c")];
    let mut found = app.collect_all_claude_session_ids(&hidden);
    found.sort();
    assert_eq!(found, vec!["a".to_string(), "b".to_string(), "c".to_string()]);
    app.workspaces = None;
    assert_eq!(app.collect_all_claude_session_ids(&hidden), Vec::<String>::new());
}

#[test]
fn panes_notify_and_subagents_wake() {
    let mut app = app(leaf(1), 1);
    assert_eq!(app.swarm_wake_callback(), Some(UserEvent::SwarmWatcherTick));
    app.swarm_debouncer_tx = false;
    assert_eq!(app.swarm_wake_callback(), None);
    assert_eq!(
        notification_event("done".to_string()),
        UserEvent::DesktopNotification {
            title: "Therminal".to_string(),
            body: "done".to_string(),
            source: NotificationSource::Osc9,
        }
    );
}

#[test]
fn a_location_is_opened_with_the_editor_that_is_found() {
    let mut app = app(leaf(1), 1);
    let chain = vec!["code".to_string()];
    let found = |p: &str| if p == "/a.rs" { Ok(true) } else { Err(()) };
    let launch = |editor: &String, path: &String, line: &String| {
        assert_eq!((editor.as_str(), path.as_str(), line.as_str()), ("code", "/a.rs", "12"));
        false
    };
    let open = |_: &String| -> bool { panic!("nothing to leave to the desktop") };
    let first = |c: &[String]| Some(c[0].clone());
    let step = app.open_in_editor("/a.rs:12", &chain, found, first, launch, open, wide);
    assert_eq!(step, None);
    assert_eq!(
        app.effects,
        vec![Effect::Toast(Notice::EditorLaunchFailed("code".to_string()))]
    );
    app.effects.clear();
    let none = |_: &[String]| None;
    let missing = app.open_in_editor("/b.rs", &chain, found, none, launch, open, wide);
    assert_eq!(missing, None);
    assert!(matches!(app.effects[..], [Effect::Toast(Notice::Text(_))]));
}

#[test]
fn an_editor_that_draws_in_a_terminal_gets_a_pane() {
    let mut app = app(leaf(1), 1);
    let chain = vec!["nvim".to_string()];
    let found = |_: &str| Ok::<bool, ()>(true);
    let first = |c: &[String]| Some(c[0].clone());
    let launch = |_: &String, _: &String, _: &String| -> bool { panic!("no process") };
    let open = |_: &String| -> bool { panic!("nothing to leave to the desktop") };
    match app.open_in_editor("/a.rs:12", &chain, found, first, launch, open, wide) {
        Some(EditorStep::Local { step, original, command }) => {
            assert_eq!(original, Some(1));
            assert_eq!(command, b"clear && exec nvim +12 '/a.rs'\n".to_vec());
            assert!(matches!(step, SplitStep::SpawnLocal { source: 1, .. }));
            app.finish_split_local(1, SplitDirection::Horizontal, Some(pane(2)));
            app.effects.clear();
            app.finish_wsl_pane_editor(original, command.clone());
            assert_eq!(app.effects, vec![Effect::WritePty { pane: 2, bytes: command }]);
        }
        other => panic!("expected a local split, got {other:?}"),
    }
}

#[test]
fn a_closed_workspace_takes_its_hidden_panes_with_it() {
    let mut app = app(split(leaf(1), leaf(2)), 2);
    app.zoom_toggle_focused_pane();
    app.effects.clear();
    assert!(app.close_all_panes(0));
    app.finish_close_all_panes(Some(workspaces(leaf(7), 7)));
    assert_eq!(app.zoomed_layout, None);
    assert_eq!(ids(&app), vec![7]);
    assert_eq!(app.effects, vec![Effect::RelayoutAndRedraw, Effect::PublishWorkspaceState]);
}
