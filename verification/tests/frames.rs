use therminal_window::hotspot::CellMap;
use therminal_window::ids::PaneIdMap;
use therminal_window::layout::{LayoutNode, PaneId, PaneState, Ratio, SplitDirection};
use therminal_window::layout_ops::HALF_BITS;
use therminal_window::swarm_panes::SwarmPanes;
use therminal_window::frame::delegates::{
    delegate_state_from_claude, ClaudeStatus, DelegateState, PaneTags,
};
use therminal_window::frame::jump::{JumpDirection, Region, RegionKind, ScrollView};
use therminal_window::frame::passes::{FramePlan, FrameState, OverlayMode, Pass, Surface};
use therminal_window::frame::status::{ClaudeMeta, PaneStatus, WorkspaceTitle};
use therminal_window::frame::timeline::{bar_width, timeline_activity, AgentStatus};
use therminal_window::frame::widgets::{
    PatternPlace, Place, PlacedBar, TimelinePosition, TimelineView, WidgetFrame, WidgetSize,
};
use therminal_window::window::pointer::{Pointer, Screen};
use therminal_window::window::{App, Effect, NewPaneCwd, Notice, Workspaces};

fn pane(id: PaneId) -> PaneState {
    PaneState { id, pinned: false, cwd: None, claude_session_id: None }
}

fn leaf(id: PaneId) -> LayoutNode {
    LayoutNode::Leaf(pane(id))
}

fn split(first: LayoutNode, second: LayoutNode) -> LayoutNode {
    LayoutNode::Split {
        direction: SplitDirection::Horizontal,
        ratio: Ratio { bits: HALF_BITS },
        first: Box::new(first),
        second: Box::new(second),
    }
}

fn workspaces(layout: LayoutNode, focused: PaneId) -> Workspaces {
    Workspaces { active_id: 1, ids: vec![1], layout, focused: Some(focused) }
}

fn app(layout: LayoutNode, focused: PaneId) -> App {
    App {
        attach_remote: false,
        daemon_client: false,
        daemon_runtime: false,
        daemon_session_id: None,
        has_renderer: true,
        has_window: true,
        has_layout_rect: true,
        auto_tile_debouncer: true,
        swarm_debouncer_tx: true,
        new_pane_cwd: NewPaneCwd::Inherit,
        pane_id_map: PaneIdMap::new(),
        workspaces: Some(workspaces(layout, focused)),
        zoomed_layout: None,
        last_close_action: None,
        last_split_direction: SplitDirection::Vertical,
        scrollback_compact_countdown: 0,
        swarm_panes: SwarmPanes::new(),
        selection_pane: None,
        selection_in_progress: false,
        screen: Screen {
            use_csd: false,
            show_pane_headers: true,
            surface: Some((800, 600)),
            pointer: Pointer {
                cursor_known: true,
                left_held: false,
                drag_pane: None,
                last_click_time: None,
                last_click_pos: None,
                click_count: 0,
                separator_cursor_active: false,
                edge_cursor_active: false,
                hyperlink_cursor_active: false,
            },
            separator_drag: None,
            hyperlinks: CellMap::new(),
            hotspots: CellMap::new(),
        },
        effects: Vec::new(),
    }
}

fn frame() -> FrameState {
    FrameState {
        has_gpu: true,
        surface: Surface::Ready,
        show_status_bar: true,
        overlay_mode: None,
        trust_escalation: false,
        menu_open: false,
        visual_bell_start: None,
        visual_bell_duration_ms: 100,
        toast_expired: None,
        delegates_visible: false,
        now: 1000,
    }
}

#[test]
fn a_plain_frame_has_its_passes() {
    let mut app = app(leaf(1), 1);
    let mut state = frame();
    assert_eq!(
        app.render(&mut state),
        FramePlan::Draw(vec![
            Pass::Clear,
            Pass::Panes { show_focus: false },
            Pass::StatusBar,
            Pass::Widgets,
        ])
    );
    assert!(app.effects.is_empty());
}

#[test]
fn everything_is_drawn_in_order() {
    let mut app = app(split(leaf(1), leaf(2)), 1);
    app.screen.use_csd = true;
    let mut state = FrameState {
        overlay_mode: Some(OverlayMode::Settings),
        menu_open: true,
        visual_bell_start: Some(970),
        toast_expired: Some(false),
        delegates_visible: true,
        ..frame()
    };
    assert_eq!(
        app.render(&mut state),
        FramePlan::Draw(vec![
            Pass::Clear,
            Pass::Panes { show_focus: true },
            Pass::StatusBar,
            Pass::TabBar,
            Pass::FrameButtons,
            Pass::Overlay(OverlayMode::Settings),
            Pass::ContextMenu,
            Pass::VisualBell { left: 70, duration: 100 },
            Pass::Toast,
            Pass::Widgets,
        ])
    );
    assert_eq!(
        app.effects,
        vec![Effect::RequestRedraw, Effect::RequestRedraw, Effect::RequestRedraw]
    );
    assert_eq!(state.visual_bell_start, Some(970));
}

#[test]
fn what_has_expired_is_forgotten() {
    let mut app = app(leaf(1), 1);
    let mut state = FrameState {
        visual_bell_start: Some(900),
        toast_expired: Some(true),
        overlay_mode: Some(OverlayMode::TrustEscalation),
        ..frame()
    };
    match app.render(&mut state) {
        FramePlan::Draw(passes) => {
            assert!(!passes.contains(&Pass::Toast));
            assert!(!passes.contains(&Pass::Overlay(OverlayMode::TrustEscalation)));
        }
        other => panic!("expected a frame, got {other:?}"),
    }
    assert_eq!(state.visual_bell_start, None);
    assert_eq!(state.toast_expired, None);
}

#[test]
fn without_a_surface_nothing_is_drawn() {
    let mut app = app(leaf(1), 1);
    let mut stale = FrameState { surface: Surface::Stale, visual_bell_start: Some(1), ..frame() };
    assert_eq!(app.render(&mut stale), FramePlan::Reconfigure);
    assert_eq!(stale.visual_bell_start, Some(1));
    let mut failed = FrameState { surface: Surface::Failed, ..frame() };
    assert_eq!(app.render(&mut failed), FramePlan::Skip);
    let mut none = FrameState { has_gpu: false, ..frame() };
    assert_eq!(app.render(&mut none), FramePlan::Skip);
    assert!(!app.is_drawable(&none));
    assert!(app.is_drawable(&frame()));
    app.has_renderer = false;
    assert_eq!(app.render(&mut frame()), FramePlan::Skip);
    assert!(!app.is_drawable(&frame()));
}

#[test]
fn the_status_bar_prefers_the_agent() {
    let mut app = app(leaf(1), 1);
    let mut status = PaneStatus {
        claude: None,
        cwd: Some("/shell".to_string()),
        last_exit_code: Some(3),
        agent_name: Some("agent".to_string()),
        git_branch: Some("main".to_string()),
        dimensions: None,
    };
    let info = app.status_bar_info(Some(&status), true, None, Some("two".to_string()));
    assert_eq!(info.cwd.as_deref(), Some("/shell"));
    assert_eq!(info.dimensions, (80, 24));
    assert_eq!(info.last_exit_code, Some(3));
    assert_eq!(info.workspace_ids, vec![1]);
    assert_eq!(info.focused_pane_id, Some(1));
    assert_eq!(info.delegate_summary.as_deref(), Some("two"));
    status.claude = Some(ClaudeMeta {
        cwd: Some("/agent".to_string()),
        session_title: Some("title".to_string()),
        status_text: "busy".to_string(),
    });
    status.dimensions = Some((132, 50));
    let info = app.status_bar_info(Some(&status), false, None, None);
    assert_eq!(info.cwd.as_deref(), Some("/agent"));
    assert_eq!(info.claude_title.as_deref(), Some("title"));
    assert_eq!(info.claude_status_text.as_deref(), Some("busy"));
    assert_eq!(info.dimensions, (132, 50));
    app.workspaces = None;
    let info = app.status_bar_info(None, false, None, None);
    assert_eq!((info.workspace_ids, info.active_workspace), (vec![1], 1));
    assert_eq!(info.dimensions, (80, 24));
    assert_eq!(info.cwd, None);
}

#[test]
fn a_single_workspace_has_no_tabs() {
    let mut app = app(leaf(1), 1);
    assert_eq!(app.tab_bar(&vec![]), None);
    app.workspaces.as_mut().unwrap().ids = vec![1, 2];
    let titles = vec![
        WorkspaceTitle { workspace: 1, title: None },
        WorkspaceTitle { workspace: 2, title: Some("t".to_string()) },
    ];
    let bar = app.tab_bar(&titles).unwrap();
    assert_eq!(bar.workspace_ids, vec![1, 2]);
    assert_eq!(bar.titles, Some(vec![(2, "t".to_string())]));
    assert!(!bar.buttons);
    app.workspaces.as_mut().unwrap().ids = vec![1];
    app.screen.use_csd = true;
    let bar = app.tab_bar(&vec![]).unwrap();
    assert!(bar.buttons);
    assert_eq!(bar.titles, None);
}

#[test]
fn delegates_are_found_by_their_tag() {
    let app = app(leaf(1), 1);
    let tags = |pane_id, profile: Option<&str>, status: Option<&str>, claude| PaneTags {
        pane_id,
        delegate_profile: profile.map(|s| s.to_string()),
        delegate_status: status.map(|s| s.to_string()),
        claude,
    };
    let scan = app.scan_and_update_delegate_summary(&vec![
        tags(1, None, Some("done"), None),
        tags(2, Some("p"), Some("done"), Some(ClaudeStatus::Streaming)),
        tags(3, Some("q"), Some("working"), Some(ClaudeStatus::ToolUse)),
        tags(4, Some("r"), None, None),
    ]);
    assert_eq!(scan.present, vec![2, 3, 4]);
    let states: Vec<DelegateState> = scan.observations.iter().map(|o| o.state).collect();
    assert_eq!(states, vec![DelegateState::Done, DelegateState::Thinking, DelegateState::Idle]);
    assert_eq!(scan.observations[1].profile, "q");
}

#[test]
fn live_states_of_delegates() {
    assert_eq!(delegate_state_from_claude(ClaudeStatus::Streaming), DelegateState::Streaming);
    for status in [ClaudeStatus::Processing, ClaudeStatus::Thinking, ClaudeStatus::ToolUse] {
        assert_eq!(delegate_state_from_claude(status), DelegateState::Thinking);
    }
    for status in [ClaudeStatus::Idle, ClaudeStatus::AwaitingInput] {
        assert_eq!(delegate_state_from_claude(status), DelegateState::Idle);
    }
}

#[test]
fn activity_has_a_name() {
    let name = |s: &AgentStatus| timeline_activity(true, Some(s)).unwrap();
    assert_eq!(name(&AgentStatus::ToolUse { tool_name: "Bash".to_string() }), "Bash");
    assert_eq!(name(&AgentStatus::Idle), "Idle");
    assert_eq!(name(&AgentStatus::AwaitingInput), "Idle");
    for s in [
        AgentStatus::Thinking,
        AgentStatus::Processing,
        AgentStatus::Streaming,
        AgentStatus::Active,
    ] {
        assert_eq!(name(&s), "Thinking");
    }
    assert_eq!(timeline_activity(false, Some(&AgentStatus::Idle)), None);
    assert_eq!(timeline_activity(true, None), None);
}

#[test]
fn the_bar_has_two_fifths_of_the_window() {
    for width in 0..3000u32 {
        let expected = ((width as f32 * 0.4).round() as u32).clamp(100, 800);
        assert_eq!(bar_width(width), expected);
    }
    assert_eq!(bar_width(1000), 400);
    assert_eq!(bar_width(1001), 400);
    assert_eq!(bar_width(1002), 401);
}

fn widgets() -> WidgetFrame {
    WidgetFrame {
        has_gpu: true,
        has_widget_renderer: true,
        width: 1000,
        height: 600,
        tab_bar_height: 30,
        show_status_bar: true,
        status: Some(AgentStatus::Idle),
        badge: Some(WidgetSize { width: 120, height: 24 }),
        timeline: TimelineView {
            visible: true,
            empty: false,
            height: 16,
            position: TimelinePosition::BottomCenter,
        },
        patterns: vec![
            PatternPlace { left: 0, top: 0, top_up: 0, height: 600 },
            PatternPlace { left: -1, top: 0, top_up: 0, height: 1 },
            PatternPlace { left: 0, top: 590, top_up: 591, height: 10 },
            PatternPlace { left: 5, top: 590, top_up: 590, height: 10 },
        ],
    }
}

#[test]
fn widgets_are_placed_where_they_fit() {
    let app = app(leaf(1), 1);
    let plan = app.draw_widget_overlays(&widgets()).unwrap();
    assert_eq!(plan.activity.as_deref(), Some("Idle"));
    assert_eq!(plan.badge, Some(Place { x: 2 * 868, y: 2 * 38 }));
    assert_eq!(
        plan.timeline,
        Some(PlacedBar { place: Place { x: 600, y: 2 * 548 }, width: 400 })
    );
    assert_eq!(plan.patterns, vec![0, 3]);
    let mut small = widgets();
    small.width = 100;
    small.timeline.position = TimelinePosition::TopRight;
    let plan = app.draw_widget_overlays(&small).unwrap();
    assert_eq!(plan.badge, None);
    assert_eq!(plan.timeline, None);
    let mut right = widgets();
    right.show_status_bar = false;
    right.timeline.position = TimelinePosition::BottomRight;
    let plan = app.draw_widget_overlays(&right).unwrap();
    assert_eq!(
        plan.timeline.unwrap().place,
        Place { x: 2 * 588, y: 2 * 572 }
    );
    let mut none = widgets();
    none.has_widget_renderer = false;
    assert_eq!(app.draw_widget_overlays(&none), None);
}

#[test]
fn a_jump_centres_the_region() {
    let mut app = app(leaf(1), 1);
    let view = ScrollView { history: 1000, offset: 0, screen_lines: 40 };
    let region = |kind, command: Option<&str>| Region {
        kind,
        start_line: 500,
        command: command.map(|c| c.to_string()),
    };
    app.jump_to_region(
        JumpDirection::Prev,
        false,
        |_| Some(view),
        |dir, top, kinds: Vec<RegionKind>| {
            assert_eq!(dir, JumpDirection::Prev);
            assert_eq!(top, 1000);
            assert_eq!(kinds.len(), 6);
            Some(region(RegionKind::Command, Some("ls")))
        },
    );
    assert_eq!(
        app.effects,
        vec![
            Effect::ScrollDisplay { pane: 1, lines: 520 },
            Effect::Toast(Notice::Text("Command: ls".to_string())),
        ]
    );
    app.effects.clear();
    let centred = ScrollView { offset: 520, ..view };
    app.jump_to(1, centred, false, Some(region(RegionKind::Prompt, None)));
    assert_eq!(app.effects, vec![Effect::Toast(Notice::Text("Prompt".to_string()))]);
}

#[test]
fn a_jump_without_a_region_is_told() {
    let mut app = app(leaf(1), 1);
    let view = ScrollView { history: 10, offset: 3, screen_lines: 40 };
    app.jump_to_region(
        JumpDirection::Next,
        true,
        |_| Some(view),
        |_, top, kinds: Vec<RegionKind>| {
            assert_eq!(top, 7);
            assert_eq!(kinds, vec![RegionKind::Error]);
            None
        },
    );
    app.jump_to(1, view, false, None);
    assert_eq!(
        app.effects,
        vec![Effect::Toast(Notice::NoErrorRegion), Effect::Toast(Notice::NoMoreRegion)]
    );
    app.effects.clear();
    app.jump_to_region(JumpDirection::Next, true, |_| None, |_, _, _: Vec<RegionKind>| None);
    assert!(app.effects.is_empty());
}
