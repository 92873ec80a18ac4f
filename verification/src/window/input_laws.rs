//! What buttons, motion and the wheel of the mouse come to.
use super::motion;
use super::motion::{Motion, WheelTurn};
use super::mouse;
use super::mouse::{MouseButton, MouseEvent, PaneSpot};
use super::pointer;
use super::pointer::{
    CursorIcon, GridCell, HeaderAction, HeaderSpot, MouseReport, Pointer, ReportedButton,
    ResizeEdge, Screen, SelectionKind,
};
use super::{App, Effect};
use crate::hotspot::PaneCell;
use crate::layout::{PaneId, SplitDirection};
use vstd::prelude::*;

verus! {

/// Whether a terminal in this mode reports presses, drags or all motion.
pub open spec fn reports_any(mode: u32) -> bool {
    mode & 0x8 == 0x8 || mode & 0x2000 == 0x2000 || mode & 0x40 == 0x40
}

/// A press of the left button in a terminal that does not report it starts a
/// selection where the pointer is; the shift key extends the one in the same pane.
pub proof fn law_left_press_selects(
    old: App,
    new: App,
    event: MouseEvent,
    pane: PaneId,
    cell: GridCell,
    mode: u32,
)
    requires
        new.button_handled(old, event, pane, cell, mode),
        event.button == MouseButton::Left,
        event.pressed,
        old.workspaces is Some && old.workspaces->0.layout.has(pane),
        !reports_any(mode),
    ensures
        ({
            let n = old.effects@.len() as int;
            let p = new.screen.pointer;
            &&& new.effects@.take(n) == old.effects@
            &&& new.effects@.len() == n + if old.has_window {
                2int
            } else {
                1
            }
            &&& old.has_window ==> new.effects@.last() == Effect::RequestRedraw
            &&& event.shift && old.selection_pane == Some(pane) ==> {
                &&& new.effects@[n] == (Effect::UpdateSelection {
                    pane,
                    col: cell.col,
                    row: cell.row,
                })
                &&& new.selection_in_progress == old.selection_in_progress
            }
            &&& !event.shift || old.selection_pane != Some(pane) ==> {
                &&& new.effects@[n] matches Effect::StartSelection {
                    pane: at,
                    col,
                    row,
                    kind,
                } && at == pane && col == cell.col && row == cell.row && (kind
                    == SelectionKind::Semantic <==> p.click_count == 2) && (kind
                    == SelectionKind::Lines <==> p.click_count == 3)
                &&& new.selection_in_progress
            }
            &&& new.selection_pane == Some(pane)
            &&& p.left_held
            &&& p.drag_pane == Some(pane)
            &&& p.last_click_pos == Some(cell)
            &&& p.last_click_time == Some(event.now)
            &&& new.workspaces == old.workspaces
        }),
{
    assert(new.effects@.take(old.effects@.len() as int) =~= old.effects@);
}

/// When the left button comes up in a terminal that does not report it, the selection
/// ends and its text is copied; a single click where the button went down opens the
/// link there, or else offers what can be done with the hotspot.
pub proof fn law_left_release_copies(
    old: App,
    new: App,
    event: MouseEvent,
    pane: PaneId,
    cell: GridCell,
    mode: u32,
)
    requires
        new.button_handled(old, event, pane, cell, mode),
        event.button == MouseButton::Left,
        !event.pressed,
        !reports_any(mode),
    ensures
        ({
            let at = PaneCell { pane, row: cell.row, col: cell.col };
            let single = old.screen.pointer.click_count == 1 && old.screen.pointer.last_click_pos
                == Some(cell);
            let copied = old.selection_pane is Some && old.workspaces is Some
                && old.workspaces->0.layout.has(old.selection_pane->0);
            let n = old.effects@.len() as int + if copied {
                1int
            } else {
                0
            };
            &&& !new.selection_in_progress
            &&& !new.screen.pointer.left_held
            &&& new.screen.pointer.drag_pane is None
            &&& copied ==> new.effects@[n - 1] == (Effect::CopySelection {
                pane: old.selection_pane->0,
            })
            &&& single && old.has_renderer && old.screen.hyperlinks@.dom().contains(at)
                ==> new.effects@.len() == n + 1 && new.effects@[n] == Effect::OpenUrl(
                old.screen.hyperlinks@[at],
            )
            &&& single && old.has_renderer && !old.screen.hyperlinks@.dom().contains(at)
                && old.screen.hotspots@.dom().contains(at) && old.screen.pointer.cursor_known
                ==> new.effects@[n] == (Effect::OpenHotspotPalette {
                kind: old.screen.hotspots@[at].kind,
                text: old.screen.hotspots@[at].text,
            })
            &&& !single || !old.has_renderer ==> new.effects@.len() == n
            &&& !old.screen.hyperlinks@.dom().contains(at) && (!old.screen.hotspots@.dom().contains(
                at,
            ) || !old.screen.pointer.cursor_known) ==> new.effects@.len() == n
        }),
{
    assert(0u32 & 0x8 != 0x8 && 0u32 & 0x2000 != 0x2000 && 0u32 & 0x40 != 0x40) by (bit_vector);
}

/// A terminal that reports the mouse gets every known button, pressed or released,
/// with its cell, and no text is selected.
pub proof fn law_buttons_are_reported(
    old: App,
    new: App,
    event: MouseEvent,
    pane: PaneId,
    cell: GridCell,
    mode: u32,
)
    requires
        new.button_handled(old, event, pane, cell, mode),
        old.workspaces is Some && old.workspaces->0.layout.has(pane),
        reports_any(mode),
    ensures
        new.selection_pane == old.selection_pane,
        new.selection_in_progress == old.selection_in_progress,
        new.screen.pointer.click_count == old.screen.pointer.click_count,
        event.button == MouseButton::Other ==> new.effects@ == old.effects@,
        event.button != MouseButton::Other ==> {
            let button = match event.button {
                MouseButton::Left => ReportedButton::Left,
                MouseButton::Middle => ReportedButton::Middle,
                _ => ReportedButton::Right,
            };
            new.effects@ == old.effects@.push(
                Effect::ReportMouse {
                    pane,
                    report: if event.pressed {
                        MouseReport::Press(button)
                    } else {
                        MouseReport::Release(button)
                    },
                    col: cell.col,
                    row: cell.row,
                    times: 1,
                },
            )
        },
{
    if event.button != MouseButton::Other {
        assert(new.effects@ =~= old.effects@.push(new.effects@.last()));
    }
}

/// Other buttons than the left one change nothing in a terminal that does not report
/// them.
pub proof fn law_other_buttons_change_nothing(
    old: App,
    new: App,
    event: MouseEvent,
    pane: PaneId,
    cell: GridCell,
    mode: u32,
)
    requires
        new.button_handled(old, event, pane, cell, mode),
        event.button != MouseButton::Left,
        !reports_any(mode),
    ensures
        new.screen.pointer == old.screen.pointer,
        new.effects@ == old.effects@,
{
    assert(new.effects@ =~= old.effects@);
}

/// Where the left button comes up, the pane counts in which it went down; every other
/// event counts for the pane under the pointer.
pub proof fn law_where_a_button_counts(app: App, event: MouseEvent, under: Option<PaneId>)
    ensures
        event.pressed || event.button != MouseButton::Left ==> app.button_target(event, under)
            == under,
        app.screen.pointer.drag_pane is None ==> app.button_target(event, under) == under,
        !event.pressed && event.button == MouseButton::Left && app.screen.pointer.drag_pane is Some
            ==> app.button_target(event, under) == app.screen.pointer.drag_pane,
        app.screen.pointer.left_held ==> app.motion_target(under) == app.screen.pointer.drag_pane,
        !app.screen.pointer.left_held ==> app.motion_target(under) == under,
{
}

/// A click counts with the last one only in the same cell and within three tenths of a
/// second.
pub proof fn law_clicks_that_count_together(p: Pointer, now: u64, cell: GridCell)
    ensures
        p.last_click_pos != Some(cell) ==> p.clicks(now, cell) == 1,
        p.last_click_time is None ==> p.clicks(now, cell) == 1,
        p.last_click_time matches Some(t) ==> now >= t + 300 ==> p.clicks(now, cell) == 1,
        mouse::selection_kind(1) == SelectionKind::Simple,
        mouse::selection_kind(2) == SelectionKind::Semantic,
        mouse::selection_kind(3) == SelectionKind::Lines,
{
}

/// Motion with the left button held moves the end of a selection that is being made,
/// or is reported to a program that asked for it.
pub proof fn law_drags_select_or_are_reported(
    old: App,
    new: App,
    pane: PaneId,
    cell: GridCell,
    mode: u32,
)
    requires
        new.motion_handled(old, pane, cell, mode),
        old.screen.pointer.left_held,
        old.workspaces is Some && old.workspaces->0.layout.has(pane),
    ensures
        new.screen == old.screen,
        old.selection_in_progress ==> new.effects@[old.effects@.len() as int] == (
        Effect::UpdateSelection { pane, col: cell.col, row: cell.row }) && new.effects@.len()
            == old.effects@.len() + if old.has_window {
            2int
        } else {
            1
        },
        !old.selection_in_progress && (mode & 0x2000 == 0x2000 || mode & 0x40 == 0x40)
            ==> new.effects@ == old.effects@.push(
            Effect::ReportMouse {
                pane,
                report: MouseReport::Drag(ReportedButton::Left),
                col: cell.col,
                row: cell.row,
                times: 1,
            },
        ),
        !old.selection_in_progress && mode & 0x2000 != 0x2000 && mode & 0x40 != 0x40
            ==> new.effects@ == old.effects@,
{
    if !old.selection_in_progress && mode & 0x2000 != 0x2000 && mode & 0x40 != 0x40 {
        assert(new.effects@ =~= old.effects@);
    }
}

/// Motion with no button held lights up links and hotspots, and is reported to a
/// program that asked for all of it.
pub proof fn law_free_motion(old: App, new: App, pane: PaneId, cell: GridCell, mode: u32)
    requires
        new.motion_handled(old, pane, cell, mode),
        !old.screen.pointer.left_held,
        old.workspaces is Some && old.workspaces->0.layout.has(pane),
    ensures
        ({
            let at = PaneCell { pane, row: cell.row, col: cell.col };
            let target = old.has_renderer && (old.screen.hyperlinks@.dom().contains(at)
                || old.screen.hotspots@.dom().contains(at));
            let free = !old.screen.pointer.separator_cursor_active
                && !old.screen.pointer.edge_cursor_active;
            let was = old.screen.pointer.hyperlink_cursor_active;
            let n = old.effects@.len() as int;
            &&& new.screen.pointer.hyperlink_cursor_active == (free && target)
            &&& mode & 0x40 == 0x40 ==> new.effects@.last() == (Effect::ReportMouse {
                pane,
                report: MouseReport::Motion,
                col: cell.col,
                row: cell.row,
                times: 1,
            })
            &&& free && old.has_window && target && !was ==> new.effects@[n] == Effect::SetCursor(
                CursorIcon::Pointer,
            )
            &&& free && old.has_window && !target && was ==> new.effects@[n] == Effect::SetCursor(
                CursorIcon::Default,
            )
            &&& mode & 0x40 != 0x40 && (!free || !old.has_window || target == was)
                ==> new.effects@.len() == n
        }),
{
}

/// A turn of the wheel reaches a program that reports the mouse as presses, one on
/// the alternate screen that asked for it as cursor keys; otherwise the history
/// scrolls by it.
pub proof fn law_wheel(old: App, new: App, turn: WheelTurn, pane: PaneId, spot: PaneSpot)
    requires
        new.wheel_handled(old, turn, pane, spot),
        old.workspaces is Some && old.workspaces->0.layout.has(pane),
    ensures
        ({
            let mode = spot.mode;
            let n = old.effects@.len() as int;
            let keys = !reports_any(mode) && mode & 0x1000 == 0x1000 && mode & 0x8000 == 0x8000;
            &&& new.screen == old.screen
            &&& reports_any(mode) ==> {
                &&& new.effects@.len() == n + 1
                &&& new.effects@[n] matches Effect::ReportMouse { pane: at, report, times, .. }
                    && at == pane && times == turn.steps && report == MouseReport::Press(
                    if turn.up {
                        ReportedButton::ScrollUp
                    } else {
                        ReportedButton::ScrollDown
                    },
                )
            }
            &&& reports_any(mode) && spot.cell is Some ==> {
                new.effects@[n] matches Effect::ReportMouse { col, row, .. } && col
                    == spot.cell->0.col && row == spot.cell->0.row
            }
            &&& keys ==> {
                &&& new.effects@.len() == n + 1
                &&& new.effects@[n] matches Effect::WritePty { pane: at, bytes } && at == pane
                    && bytes@ == motion::arrow_keys(turn.up, turn.steps as nat)
            }
            &&& !reports_any(mode) && !keys ==> new.effects@ == old.effects@ + seq![
                Effect::ScrollDisplay { pane, lines: turn.scroll },
                Effect::RequestRedraw,
            ]
        }),
{
    let mode = spot.mode;
    if !reports_any(mode) && !(mode & 0x1000 == 0x1000 && mode & 0x8000 == 0x8000) {
        assert(new.effects@ =~= old.effects@ + seq![
            Effect::ScrollDisplay { pane, lines: turn.scroll },
            Effect::RequestRedraw,
        ]);
    }
}

/// Cursor keys are sent once for each line, each as an escape sequence of three bytes.
pub proof fn law_one_key_for_each_line(up: bool, times: nat, i: int)
    requires
        0 <= i < times,
    ensures
        motion::arrow_keys(up, times).len() == 3 * times,
        motion::arrow_keys(up, times)[3 * i] == 0x1b,
        motion::arrow_keys(up, times)[3 * i + 1] == 0x5b,
        motion::arrow_keys(up, times)[3 * i + 2] == if up {
            0x41u8
        } else {
            0x42u8
        },
    decreases times,
{
    let rest = motion::arrow_keys(up, (times - 1) as nat);
    if i < times - 1 {
        law_one_key_for_each_line(up, (times - 1) as nat, i);
    } else {
        lemma_keys_len(up, (times - 1) as nat);
    }
}

proof fn lemma_keys_len(up: bool, times: nat)
    ensures
        motion::arrow_keys(up, times).len() == 3 * times,
    decreases times,
{
    if times > 0 {
        lemma_keys_len(up, (times - 1) as nat);
    }
}

/// With no button held, the separator looks are on exactly over a separator, and the
/// edge looks exactly at an edge away from separators; with a button held they stay.
pub proof fn law_looks_follow_the_pointer(screen: Screen, motion: Motion, w: u32, h: u32)
    requires
        screen.surface == Some((w, h)),
        screen.use_csd,
    ensures
        screen.pointer.left_held ==> screen.hovered(motion) == screen,
        !screen.pointer.left_held ==> {
            let p = screen.hovered(motion).pointer;
            let inside = 0 <= motion.x < w && 0 <= motion.y < h;
            let away = 6 <= motion.x < w - 6 && 6 <= motion.y < h - 6;
            &&& p.separator_cursor_active == motion.separator is Some
            &&& p.edge_cursor_active == (motion.separator is None && inside && !away)
            &&& p.left_held == screen.pointer.left_held
            &&& p.hyperlink_cursor_active == screen.pointer.hyperlink_cursor_active
        },
        screen.hover_looks(motion).0 == Some(CursorIcon::EwResize) <==> !screen.pointer.left_held
            && motion.separator == Some(SplitDirection::Horizontal)
            && !screen.pointer.separator_cursor_active,
        screen.hover_looks(motion).0 == Some(CursorIcon::NsResize) <==> !screen.pointer.left_held
            && motion.separator == Some(SplitDirection::Vertical)
            && !screen.pointer.separator_cursor_active,
{
}

/// Away from the corners, an edge is the one that the pixel is near to.
pub proof fn law_edges(x: int, y: int, width: int, height: int, tolerance: int)
    requires
        0 <= x < width,
        0 <= y < height,
        0 < tolerance,
        2 * tolerance <= width,
        2 * tolerance <= height,
    ensures
        ({
            let e = pointer::edge_at(x, y, width, height, tolerance);
            let across = tolerance <= x < width - tolerance;
            let down = tolerance <= y < height - tolerance;
            &&& e == Some(ResizeEdge::N) <==> y < tolerance && across
            &&& e == Some(ResizeEdge::S) <==> y >= height - tolerance && across
            &&& e == Some(ResizeEdge::W) <==> x < tolerance && down
            &&& e == Some(ResizeEdge::E) <==> x >= width - tolerance && down
            &&& e is None <==> across && down
        }),
{
}

/// Turned upside down, or the other way round, a window has its edges turned too.
pub open spec fn upside_down(e: ResizeEdge) -> ResizeEdge {
    match e {
        ResizeEdge::N => ResizeEdge::S,
        ResizeEdge::S => ResizeEdge::N,
        ResizeEdge::NE => ResizeEdge::SE,
        ResizeEdge::SE => ResizeEdge::NE,
        ResizeEdge::NW => ResizeEdge::SW,
        ResizeEdge::SW => ResizeEdge::NW,
        other => other,
    }
}

/// The edges of a window mirror each other.
pub proof fn law_edges_mirror(x: int, y: int, width: int, height: int, tolerance: int)
    requires
        0 <= x < width,
        0 <= y < height,
        0 < tolerance,
        2 * tolerance <= width,
        2 * tolerance <= height,
    ensures
        match pointer::edge_at(x, y, width, height, tolerance) {
            Some(e) => pointer::edge_at(x, height - 1 - y, width, height, tolerance) == Some(
                upside_down(e),
            ),
            None => pointer::edge_at(x, height - 1 - y, width, height, tolerance) is None,
        },
{
}

/// Different edges resize in different directions and have different looks.
pub proof fn law_edges_are_told_apart(a: ResizeEdge, b: ResizeEdge)
    requires
        a != b,
    ensures
        a.direction() != b.direction(),
        a.icon() != b.icon(),
{
}

/// A pixel over the grid is in the cell that it is over; one beyond it is in the last
/// cell of its row or column, and one before it in none.
pub proof fn law_cell_under_a_pixel(col: int, row: int, columns: int, lines: int)
    requires
        columns > 0,
        lines > 0,
    ensures
        0 <= col < columns && 0 <= row < lines ==> pointer::cell_at(col, row, columns, lines)
            == Some((col, row)),
        col >= columns && 0 <= row < lines ==> pointer::cell_at(col, row, columns, lines) == Some(
            (columns - 1, row),
        ),
        0 <= col < columns && row >= lines ==> pointer::cell_at(col, row, columns, lines) == Some(
            (col, lines - 1),
        ),
        pointer::cell_at(col, row, columns, lines) is None <==> col < 0 || row < 0,
{
}

/// A click on a header asks for what the button under it says, of that pane; beside
/// the buttons it gives the focus, and outside of the header nothing.
pub proof fn law_header_buttons(pane: PaneId, spot: HeaderSpot)
    ensures
        pointer::header_action(pane, spot) is None <==> !spot.in_strip,
        spot.in_strip && spot.on_close ==> pointer::header_action(pane, spot) == Some(
            HeaderAction::Close(pane),
        ),
        spot.in_strip && spot.on_vsplit && !spot.on_close ==> pointer::header_action(pane, spot)
            == Some(HeaderAction::SplitV(pane)),
        spot.in_strip && spot.on_hsplit && !spot.on_close && !spot.on_vsplit
            ==> pointer::header_action(pane, spot) == Some(HeaderAction::SplitH(pane)),
        spot.in_strip && !spot.on_close && !spot.on_vsplit && !spot.on_hsplit
            ==> pointer::header_action(pane, spot) == Some(HeaderAction::Focus(pane)),
{
}

/// A copy takes the text of the selection, and without one that of the focused pane.
pub proof fn law_what_is_copied(app: App)
    ensures
        app.selection_pane is Some ==> app.copied_pane() == app.selection_pane,
        app.selection_pane is None && app.workspaces is Some ==> app.copied_pane()
            == app.workspaces->0.focused,
{
}

/// Headers are drawn where they are on and there is more than one pane.
pub proof fn law_headers_are_drawn(app: App)
    ensures
        app.headers_drawn() <==> app.screen.show_pane_headers && app.workspaces is Some
            && app.workspaces->0.layout.panes().len() >= 2,
{
}

/// A cell has the link and the hotspot that were drawn there, and none where nothing
/// can be drawn; edges count only where the window draws its own frame.
pub proof fn law_what_is_under_the_pointer(app: App, cell: PaneCell, x: i64, y: i64)
    ensures
        !app.has_renderer ==> app.link(cell) is None && app.hotspot(cell) is None,
        app.has_renderer ==> {
            &&& app.link(cell) is Some <==> app.screen.hyperlinks@.dom().contains(cell)
            &&& app.link(cell) is Some ==> app.link(cell) == Some(app.screen.hyperlinks@[cell])
            &&& app.hotspot(cell) is Some <==> app.screen.hotspots@.dom().contains(cell)
            &&& app.hotspot(cell) is Some ==> app.hotspot(cell) == Some(app.screen.hotspots@[cell])
        },
        !app.screen.use_csd || app.screen.surface is None ==> app.screen.edge(x, y) is None,
        app.screen.edge(x, y) is Some ==> app.screen.edge_looks(x, y) == Some(
            app.screen.edge(x, y)->0.icon(),
        ),
        app.screen.edge(x, y) is None && app.screen.pointer.edge_cursor_active
            ==> app.screen.edge_looks(x, y) == Some(CursorIcon::Default),
        app.screen.edge(x, y) is None && !app.screen.pointer.edge_cursor_active
            ==> app.screen.edge_looks(x, y) is None,
        !app.has_window ==> app.cursor_effects(Some(CursorIcon::Default)).len() == 0,
{
}

} // verus!
