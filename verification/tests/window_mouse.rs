use alacritty_terminal::term::TermMode;
use therminal_window::hotspot::CellMap;
use therminal_window::ids::PaneIdMap;
use therminal_window::layout::{LayoutNode, PaneId, PaneState, Ratio, SplitDirection};
use therminal_window::layout_ops::HALF_BITS;
use therminal_window::swarm_panes::SwarmPanes;
use therminal_window::hotspot::{HotspotKind, PaneCell};
use therminal_window::window::motion::{Motion, WheelTurn};
use therminal_window::window::mouse::{MouseButton, MouseEvent, PaneSpot};
use therminal_window::window::pointer::{
    grid_cell, CursorIcon, GridCell, HeaderAction, HeaderSpot, HotspotMark, MouseReport, Pointer,
    ReportedButton, ResizeDirection, Screen, SelectionKind, SeparatorDrag,
};
use therminal_window::term_flags::mouse_mode;
use therminal_window::window::clipboard::clipboard_text;
use therminal_window::window::{App, Effect, NewPaneCwd, Workspaces};

fn pane(id: PaneId) -> PaneState {
    PaneState { id, pinned: false, cwd: None, claude_session_id: None }
}

fn leaf(id: PaneId) -> LayoutNode {
    LayoutNode::Leaf(pane(id))
}

fn split(first: LayoutNode, second: LayoutNode) -> LayoutNode {
    LayoutNode::Split {
        direction: SplitDirection::Horizontal,
        ratio: Ratio { bits: HALF_BITS },
        first: Box::new(first),
        second: Box::new(second),
    }
}

fn workspaces(layout: LayoutNode, focused: PaneId) -> Workspaces {
    Workspaces { active_id: 1, ids: vec![1], layout, focused: Some(focused) }
}

fn app(layout: LayoutNode, focused: PaneId) -> App {
    App {
        attach_remote: false,
        daemon_client: false,
        daemon_runtime: false,
        daemon_session_id: None,
        has_renderer: true,
        has_window: true,
        has_layout_rect: true,
        auto_tile_debouncer: true,
        swarm_debouncer_tx: true,
        new_pane_cwd: NewPaneCwd::Inherit,
        pane_id_map: PaneIdMap::new(),
        workspaces: Some(workspaces(layout, focused)),
        zoomed_layout: None,
        last_close_action: None,
        last_split_direction: SplitDirection::Vertical,
        scrollback_compact_countdown: 0,
        swarm_panes: SwarmPanes::new(),
        selection_pane: None,
        selection_in_progress: false,
        screen: Screen {
            use_csd: false,
            show_pane_headers: true,
            surface: Some((800, 600)),
            pointer: Pointer {
                cursor_known: true,
                left_held: false,
                drag_pane: None,
                last_click_time: None,
                last_click_pos: None,
                click_count: 0,
                separator_cursor_active: false,
                edge_cursor_active: false,
                hyperlink_cursor_active: false,
            },
            separator_drag: None,
            hyperlinks: CellMap::new(),
            hotspots: CellMap::new(),
        },
        effects: Vec::new(),
    }
}

const REPORT_CLICK: u32 = 1 << 3;
const MOTION: u32 = 1 << 6;
const ALT_SCREEN: u32 = 1 << 12;
const DRAG: u32 = 1 << 13;
const ALTERNATE_SCROLL: u32 = 1 << 15;

fn spot(mode: u32) -> impl Fn(PaneId) -> PaneSpot {
    move |_| PaneSpot { cell: Some(GridCell { col: 4, row: 2 }), mode }
}

fn left(pressed: bool, now: u64) -> MouseEvent {
    MouseEvent { pressed, button: MouseButton::Left, shift: false, now }
}

fn still() -> Motion {
    Motion { x: 400, y: 300, over_tab_bar: false, separator: None, drag_ratio: None }
}

#[test]
fn flags_are_those_of_the_emulator() {
    assert_eq!(TermMode::MOUSE_REPORT_CLICK.bits(), REPORT_CLICK);
    assert_eq!(TermMode::MOUSE_MOTION.bits(), MOTION);
    assert_eq!(TermMode::ALT_SCREEN.bits(), ALT_SCREEN);
    assert_eq!(TermMode::MOUSE_DRAG.bits(), DRAG);
    assert_eq!(TermMode::ALTERNATE_SCROLL.bits(), ALTERNATE_SCROLL);
    assert!(mouse_mode(REPORT_CLICK));
    assert!(mouse_mode(DRAG | 1));
    assert!(mouse_mode(MOTION));
    assert!(!mouse_mode(0));
    assert!(!mouse_mode(!(REPORT_CLICK | DRAG | MOTION)));
}

#[test]
fn clicks_select_more_and_more() {
    let mut app = app(leaf(1), 1);
    let mut kinds = Vec::new();
    for now in [0, 100, 200, 300] {
        app.effects.clear();
        app.handle_mouse_input(left(true, now), Some(1), spot(0));
        match &app.effects[0] {
            Effect::StartSelection { pane: 1, col: 4, row: 2, kind } => kinds.push(*kind),
            other => panic!("expected a selection, got {other:?}"),
        }
        assert_eq!(app.effects[1], Effect::RequestRedraw);
    }
    assert_eq!(
        kinds,
        vec![
            SelectionKind::Simple,
            SelectionKind::Semantic,
            SelectionKind::Lines,
            SelectionKind::Simple,
        ]
    );
    assert!(app.selection_in_progress);
    assert_eq!(app.selection_pane, Some(1));
}

#[test]
fn a_slow_second_click_is_a_first_one() {
    let mut app = app(leaf(1), 1);
    app.handle_mouse_input(left(true, 0), Some(1), spot(0));
    app.handle_mouse_input(left(true, 300), Some(1), spot(0));
    assert_eq!(app.screen.pointer.click_count, 1);
    app.handle_mouse_input(left(true, 599), Some(1), spot(0));
    assert_eq!(app.screen.pointer.click_count, 2);
}

#[test]
fn shift_extends_the_selection() {
    let mut app = app(leaf(1), 1);
    app.selection_pane = Some(1);
    let mut event = left(true, 0);
    event.shift = true;
    app.handle_mouse_input(event, Some(1), spot(0));
    assert_eq!(app.effects[0], Effect::UpdateSelection { pane: 1, col: 4, row: 2 });
}

#[test]
fn a_click_on_a_link_opens_it() {
    let mut app = app(leaf(1), 1);
    app.screen
        .hyperlinks
        .insert(PaneCell { pane: 1, row: 2, col: 4 }, "https://a.example".to_string());
    app.handle_mouse_input(left(true, 0), Some(1), spot(0));
    app.effects.clear();
    app.handle_mouse_input(left(false, 50), Some(1), spot(0));
    assert_eq!(
        app.effects,
        vec![
            Effect::CopySelection { pane: 1 },
            Effect::OpenUrl("https://a.example".to_string()),
        ]
    );
    assert!(!app.selection_in_progress);
}

#[test]
fn a_click_on_a_hotspot_offers_actions() {
    let mut app = app(leaf(1), 1);
    app.screen.hotspots.insert(
        PaneCell { pane: 1, row: 2, col: 4 },
        HotspotMark { kind: HotspotKind::FilePath, text: "a.rs".to_string() },
    );
    assert!(app.has_hotspot(1, 2, 4));
    assert!(!app.has_hotspot(1, 4, 2));
    assert!(app.handle_hotspot_click(1, 2, 4));
    assert_eq!(
        app.effects,
        vec![
            Effect::OpenHotspotPalette { kind: HotspotKind::FilePath, text: "a.rs".to_string() },
            Effect::RequestRedraw,
        ]
    );
    assert!(!app.handle_hotspot_click(1, 0, 0));
    app.screen.pointer.cursor_known = false;
    assert!(!app.handle_hotspot_click(1, 2, 4));
    app.has_renderer = false;
    assert!(!app.has_hotspot(1, 2, 4));
    assert!(!app.has_hyperlink(1, 2, 4));
}

#[test]
fn programs_that_want_the_mouse_get_it() {
    let mut app = app(split(leaf(1), leaf(2)), 1);
    app.handle_mouse_input(left(true, 0), Some(1), spot(REPORT_CLICK));
    // The release goes where the button went down.
    app.handle_mouse_input(left(false, 9), Some(2), spot(REPORT_CLICK));
    let report = |pane: PaneId, report: MouseReport| Effect::ReportMouse {
        pane,
        report,
        col: 4,
        row: 2,
        times: 1,
    };
    assert_eq!(
        app.effects,
        vec![
            report(1, MouseReport::Press(ReportedButton::Left)),
            report(1, MouseReport::Release(ReportedButton::Left)),
        ]
    );
    app.effects.clear();
    let other = MouseEvent { pressed: true, button: MouseButton::Other, shift: false, now: 0 };
    app.handle_mouse_input(other, Some(1), spot(REPORT_CLICK));
    let right = MouseEvent { button: MouseButton::Right, ..other };
    app.handle_mouse_input(right, Some(1), spot(0));
    assert!(app.effects.is_empty());
    app.handle_mouse_input(right, Some(1), spot(DRAG));
    assert_eq!(app.effects, vec![report(1, MouseReport::Press(ReportedButton::Right))]);
}

#[test]
fn dragging_moves_the_selection_or_is_reported() {
    let mut app = app(split(leaf(1), leaf(2)), 1);
    app.handle_mouse_input(left(true, 0), Some(1), spot(0));
    app.effects.clear();
    app.handle_cursor_moved(still(), Some(2), spot(0));
    assert_eq!(
        app.effects,
        vec![Effect::UpdateSelection { pane: 1, col: 4, row: 2 }, Effect::RequestRedraw]
    );
    app.selection_in_progress = false;
    app.effects.clear();
    app.handle_cursor_moved(still(), Some(2), spot(REPORT_CLICK));
    assert!(app.effects.is_empty());
    app.handle_cursor_moved(still(), Some(2), spot(DRAG));
    assert_eq!(
        app.effects,
        vec![Effect::ReportMouse {
            pane: 1,
            report: MouseReport::Drag(ReportedButton::Left),
            col: 4,
            row: 2,
            times: 1,
        }]
    );
}

#[test]
fn the_pointer_changes_over_links() {
    let mut app = app(leaf(1), 1);
    app.screen.hyperlinks.insert(PaneCell { pane: 1, row: 2, col: 4 }, "u".to_string());
    app.handle_cursor_moved(still(), Some(1), spot(0));
    app.handle_cursor_moved(still(), Some(1), spot(MOTION));
    app.handle_cursor_moved(
        still(),
        Some(1),
        |_| PaneSpot { cell: Some(GridCell { col: 0, row: 0 }), mode: 0 },
    );
    assert_eq!(
        app.effects,
        vec![
            Effect::SetCursor(CursorIcon::Pointer),
            Effect::ReportMouse {
                pane: 1,
                report: MouseReport::Motion,
                col: 4,
                row: 2,
                times: 1,
            },
            Effect::SetCursor(CursorIcon::Default),
        ]
    );
}

#[test]
fn a_separator_comes_before_an_edge_and_a_link() {
    let mut app = app(leaf(1), 1);
    app.screen.use_csd = true;
    let edge = Motion { x: 2, y: 300, ..still() };
    app.handle_cursor_moved(edge, None, spot(0));
    assert!(app.screen.pointer.edge_cursor_active);
    let both = Motion { separator: Some(SplitDirection::Horizontal), ..edge };
    app.handle_cursor_moved(both, None, spot(0));
    assert!(app.screen.pointer.separator_cursor_active);
    assert!(!app.screen.pointer.edge_cursor_active);
    app.handle_cursor_moved(still(), None, spot(0));
    assert!(!app.screen.pointer.separator_cursor_active);
    assert_eq!(
        app.effects,
        vec![
            Effect::SetCursor(CursorIcon::WResize),
            Effect::SetCursor(CursorIcon::EwResize),
            Effect::SetCursor(CursorIcon::Default),
        ]
    );
}

#[test]
fn a_separator_is_dragged() {
    let mut app = app(split(leaf(1), leaf(2)), 1);
    let near = || SeparatorDrag { path: vec![], direction: SplitDirection::Horizontal };
    assert!(!app.try_start_separator_drag(None));
    assert!(app.try_start_separator_drag(Some(near())));
    let quarter = Ratio { bits: 0x3e80_0000 };
    app.handle_cursor_moved(Motion { drag_ratio: Some(quarter), ..still() }, None, spot(0));
    let ratio = |app: &App| match &app.workspaces.as_ref().unwrap().layout {
        LayoutNode::Split { ratio, .. } => *ratio,
        other => panic!("expected a split, got {other:?}"),
    };
    assert_eq!(ratio(&app), quarter);
    app.end_separator_drag(None);
    assert_eq!(app.screen.separator_drag, None);
    assert!(app.try_separator_double_click(Some(&near())));
    assert_eq!(ratio(&app), Ratio { bits: HALF_BITS });
    assert_eq!(
        app.effects,
        vec![
            Effect::SetCursor(CursorIcon::EwResize),
            Effect::RelayoutAndRedraw,
            Effect::SetCursor(CursorIcon::Default),
            Effect::RelayoutAndRedraw,
        ]
    );
}

#[test]
fn the_frame_of_the_window_lights_up() {
    let mut app = app(leaf(1), 1);
    let over = Motion { over_tab_bar: true, ..still() };
    app.handle_cursor_moved(over, None, spot(0));
    assert!(app.effects.is_empty());
    app.screen.use_csd = true;
    app.handle_cursor_moved(over, None, spot(0));
    assert_eq!(app.effects, vec![Effect::RequestRedraw]);
}

#[test]
fn an_edge_resizes_only_a_window_without_a_frame() {
    let mut app = app(leaf(1), 1);
    assert!(!app.try_start_edge_resize(799, 300, |_| true));
    app.screen.use_csd = true;
    assert!(app.try_start_edge_resize(799, 300, |d| d == ResizeDirection::East));
    assert!(!app.try_start_edge_resize(799, 300, |_| false));
    assert!(!app.try_start_edge_resize(400, 300, |_| true));
    app.has_window = false;
    assert!(!app.try_start_edge_resize(799, 300, |_| true));
}

#[test]
fn the_wheel_scrolls_or_is_reported() {
    let turn = WheelTurn { up: true, steps: 2, scroll: 5 };
    let mut app = app(leaf(1), 1);
    app.handle_mouse_wheel(None, Some(1), spot(0));
    assert!(app.effects.is_empty());
    app.handle_mouse_wheel(Some(turn), Some(1), spot(0));
    assert_eq!(
        app.effects,
        vec![Effect::ScrollDisplay { pane: 1, lines: 5 }, Effect::RequestRedraw]
    );
    app.effects.clear();
    app.handle_mouse_wheel(Some(turn), Some(1), spot(ALT_SCREEN));
    assert_eq!(app.effects[0], Effect::ScrollDisplay { pane: 1, lines: 5 });
    app.effects.clear();
    app.handle_mouse_wheel(Some(turn), Some(1), spot(ALT_SCREEN | ALTERNATE_SCROLL));
    assert_eq!(
        app.effects,
        vec![Effect::WritePty { pane: 1, bytes: b"\x1b[A\x1b[A".to_vec() }]
    );
    app.effects.clear();
    let down = WheelTurn { up: false, steps: 1, scroll: -3 };
    app.handle_mouse_wheel(Some(down), Some(1), spot(ALT_SCREEN | ALTERNATE_SCROLL));
    assert_eq!(app.effects, vec![Effect::WritePty { pane: 1, bytes: b"\x1b[B".to_vec() }]);
    app.effects.clear();
    app.handle_mouse_wheel(
        Some(turn),
        Some(1),
        |_| PaneSpot { cell: None, mode: MOTION },
    );
    assert_eq!(
        app.effects,
        vec![Effect::ReportMouse {
            pane: 1,
            report: MouseReport::Press(ReportedButton::ScrollUp),
            col: 0,
            row: 0,
            times: 2,
        }]
    );
}

#[test]
fn cells_are_kept_within_the_grid() {
    assert_eq!(grid_cell(-1, 0, 80, 24), None);
    assert_eq!(grid_cell(0, -1, 80, 24), None);
    assert_eq!(grid_cell(90, 30, 80, 24), Some(GridCell { col: 79, row: 23 }));
    assert_eq!(grid_cell(5, 5, 0, 0), Some(GridCell { col: 0, row: 0 }));
    assert_eq!(grid_cell(5, 6, 80, 24), Some(GridCell { col: 5, row: 6 }));
}

#[test]
fn headers_have_buttons() {
    let off = HeaderSpot { in_strip: true, on_close: false, on_vsplit: false, on_hsplit: false };
    let mut two = app(split(leaf(1), leaf(2)), 1);
    assert_eq!(two.header_hit_test(Some(2), off), Some(HeaderAction::Focus(2)));
    let close = HeaderSpot { on_close: true, ..off };
    assert_eq!(two.header_hit_test(Some(2), close), Some(HeaderAction::Close(2)));
    let v = HeaderSpot { on_vsplit: true, ..off };
    assert_eq!(two.header_hit_test(Some(2), v), Some(HeaderAction::SplitV(2)));
    let h = HeaderSpot { on_hsplit: true, ..off };
    assert_eq!(two.header_hit_test(Some(2), h), Some(HeaderAction::SplitH(2)));
    assert_eq!(two.header_hit_test(Some(2), HeaderSpot { in_strip: false, ..close }), None);
    assert_eq!(two.header_hit_test(None, close), None);
    two.screen.show_pane_headers = false;
    assert_eq!(two.header_hit_test(Some(2), close), None);
    let one = app(leaf(1), 1);
    assert_eq!(one.header_hit_test(Some(1), close), None);
}

#[test]
fn the_first_pane_under_the_pointer_counts() {
    let app = app(split(leaf(1), split(leaf(2), leaf(3))), 1);
    assert_eq!(app.pane_at_position(|id| id >= 2), Some(2));
    assert_eq!(app.pane_at_position(|_| false), None);
}

#[test]
fn modes_of_hidden_panes_are_empty() {
    let app = app(leaf(1), 1);
    assert_eq!(app.pane_term_mode(1, Some(7)), 7);
    assert_eq!(app.pane_term_mode(1, None), 0);
    assert_eq!(app.pane_term_mode(2, Some(7)), 0);
    assert_eq!(app.focused_term_mode(|_| Some(9)), 9);
}

#[test]
fn a_paste_is_bracketed_and_normalized() {
    let mut app = app(leaf(1), 1);
    app.paste_clipboard("");
    assert!(app.effects.is_empty());
    app.paste_clipboard("a\r\né");
    let write = |bytes: &[u8]| Effect::WritePty { pane: 1, bytes: bytes.to_vec() };
    assert_eq!(
        app.effects,
        vec![write(b"\x1b[200~"), write("a\né".as_bytes()), write(b"\x1b[201~")]
    );
}

#[test]
fn copying_takes_the_selection_before_the_focus() {
    let mut app = app(split(leaf(1), leaf(2)), 1);
    app.copy_selection();
    app.selection_pane = Some(2);
    app.copy_selection();
    app.selection_pane = Some(9);
    app.copy_selection();
    assert_eq!(
        app.effects,
        vec![Effect::CopySelection { pane: 1 }, Effect::CopySelection { pane: 2 }]
    );
    assert_eq!(clipboard_text(Some(String::new())), None);
    assert_eq!(clipboard_text(Some("t".to_string())), Some("t".to_string()));
    assert_eq!(clipboard_text(None), None);
}

#[test]
fn a_cleared_selection_is_gone() {
    let mut app = app(leaf(1), 1);
    app.selection_pane = Some(1);
    app.selection_in_progress = true;
    app.clear_selection();
    assert_eq!(app.effects, vec![Effect::ClearTermSelection { pane: 1 }]);
    assert_eq!(app.selection_pane, None);
    assert!(!app.selection_in_progress);
}

#[test]
fn a_cleared_selection_unmarks_every_pane() {
    let mut app = app(split(leaf(1), split(leaf(2), leaf(3))), 3);
    app.clear_selection();
    let unmarked: Vec<Effect> =
        vec![1, 2, 3].into_iter().map(|pane| Effect::ClearTermSelection { pane }).collect();
    assert_eq!(app.effects, unmarked);
    app.workspaces = None;
    app.selection_in_progress = true;
    app.clear_selection();
    assert_eq!(app.effects.len(), 3);
    assert!(!app.selection_in_progress);
}

#[test]
fn a_cleared_selection_unmarks_the_panes_that_zoom_hides() {
    let mut app = app(split(leaf(1), split(leaf(2), leaf(3))), 2);
    app.zoom_toggle_focused_pane();
    app.effects.clear();
    app.selection_pane = Some(1);
    app.clear_selection();
    let unmarked: Vec<Effect> =
        vec![2, 1, 3].into_iter().map(|pane| Effect::ClearTermSelection { pane }).collect();
    assert_eq!(app.effects, unmarked);
    assert_eq!(app.selection_pane, None);
    assert!(app.zoomed_layout.is_some());
}

#[test]
fn input_goes_to_shown_panes_only() {
    let mut app = app(leaf(1), 1);
    app.pty_write(b"x".to_vec());
    app.pty_write_to_pane(b"y".to_vec(), 2);
    assert_eq!(app.effects, vec![Effect::WritePty { pane: 1, bytes: b"x".to_vec() }]);
}

#[test]
fn an_edge_gives_the_pointer_its_looks() {
    let mut app = app(leaf(1), 1);
    app.screen.use_csd = true;
    app.update_edge_hover(2, 300);
    assert_eq!(app.effects, vec![Effect::SetCursor(CursorIcon::WResize)]);
    assert!(app.screen.pointer.edge_cursor_active);
    app.update_edge_hover(400, 300);
    assert!(!app.screen.pointer.edge_cursor_active);
    assert_eq!(app.effects[1..], [Effect::SetCursor(CursorIcon::Default)]);
    app.update_edge_hover(400, 300);
    assert_eq!(app.effects.len(), 2);
}
