//! The buttons of the mouse: selections, links, and programs that want to know.
use super::pointer::{
    GridCell, HotspotMark, MouseReport, Pointer, ReportedButton, Screen, SelectionKind,
};
use super::{App, Effect};
use crate::hotspot::PaneCell;
use crate::layout::PaneId;
use crate::term_flags;
use vstd::prelude::*;

verus! {

/// A button of the mouse.
#[derive(Debug, Clone, Copy, PartialEq, Eq, Structural)]
pub enum MouseButton {
    Left,
    Middle,
    Right,
    Other,
}

/// A button that went down or up.
#[derive(Debug, Clone, Copy, PartialEq, Eq, Structural)]
pub struct MouseEvent {
    pub pressed: bool,
    pub button: MouseButton,
    /// Whether shift is held.
    pub shift: bool,
    /// The time in milliseconds.
    pub now: u64,
}

/// The pointer over a pane.
#[derive(Debug, Clone, Copy, PartialEq, Eq, Structural)]
pub struct PaneSpot {
    /// The cell that it is over, if any.
    pub cell: Option<GridCell>,
    /// The mode of the pane's terminal.
    pub mode: u32,
}

/// How long, in milliseconds, clicks may be apart to count as one double click.
pub const MULTI_CLICK_MS: u64 = 300;

impl Pointer {
    /// The pointer after a button went down or up over `target`.
    pub open spec fn held(self, event: MouseEvent, target: PaneId) -> Pointer {
        if event.button != MouseButton::Left {
            self
        } else if event.pressed {
            Pointer { left_held: true, drag_pane: Some(target), ..self }
        } else {
            Pointer { left_held: false, drag_pane: None, ..self }
        }
    }

    /// How many clicks followed each other, with one more in `cell`. The count
    /// starts anew behind a third one.
    pub open spec fn clicks(self, now: u64, cell: GridCell) -> u32 {
        if self.last_click_time is Some && now - self.last_click_time->0 < MULTI_CLICK_MS
            && self.last_click_pos == Some(cell) && self.click_count < 3 {
            (self.click_count + 1) as u32
        } else {
            1
        }
    }

    /// The pointer after a click in `cell`.
    pub open spec fn clicked(self, now: u64, cell: GridCell) -> Pointer {
        Pointer {
            click_count: self.clicks(now, cell),
            last_click_time: Some(now),
            last_click_pos: Some(cell),
            ..self
        }
    }

    fn hold(&mut self, event: MouseEvent, target: PaneId)
        ensures
            *final(self) == old(self).held(event, target),
    {
        if event.button == MouseButton::Left {
            self.left_held = event.pressed;
            if event.pressed {
                self.drag_pane = Some(target);
            } else {
                self.drag_pane = None;
            }
        }
    }

    fn click(&mut self, now: u64, cell: GridCell)
        ensures
            *final(self) == old(self).clicked(now, cell),
    {
        let same_pos = self.last_click_pos == Some(cell);
        let quick = match self.last_click_time {
            Some(t) => now < t || now - t < MULTI_CLICK_MS,
            None => false,
        };
        if quick && same_pos && self.click_count < 3 {
            self.click_count = self.click_count + 1;
        } else {
            self.click_count = 1;
        }
        self.last_click_time = Some(now);
        self.last_click_pos = Some(cell);
    }
}

/// Clicks in the same cell, each soon after the last, count one, two, three,
/// and then from one again.
pub proof fn law_click_cycle(p: Pointer, cell: GridCell, t: u64, u: u64)
    requires
        p.last_click_time == Some(t),
        p.last_click_pos == Some(cell),
        1 <= p.click_count <= 3,
        t <= u < t + MULTI_CLICK_MS,
    ensures
        p.clicked(u, cell).click_count == p.click_count % 3 + 1,
{
}

/// There are never more than three clicks in a row.
pub proof fn law_at_most_three_clicks(p: Pointer, now: u64, cell: GridCell)
    ensures
        1 <= p.clicked(now, cell).click_count <= 3,
{
}

pub open spec fn selection_kind(clicks: u32) -> SelectionKind {
    if clicks == 2 {
        SelectionKind::Semantic
    } else if clicks == 3 {
        SelectionKind::Lines
    } else {
        SelectionKind::Simple
    }
}

/// The button as a program in a terminal knows it.
pub open spec fn reported(button: MouseButton) -> Option<ReportedButton> {
    match button {
        MouseButton::Left => Some(ReportedButton::Left),
        MouseButton::Middle => Some(ReportedButton::Middle),
        MouseButton::Right => Some(ReportedButton::Right),
        MouseButton::Other => None,
    }
}

impl App {
    /// The mode of a pane's terminal, as far as the screen shows it.
    pub open spec fn mode_of(&self, pane: PaneId, mode: u32) -> u32 {
        if self.shows(pane) {
            mode
        } else {
            0
        }
    }

    /// The mode of a pane's terminal; no mode is set in one that the screen does
    /// not show, or that has no terminal.
    pub fn pane_term_mode(&self, pane_id: PaneId, mode: Option<u32>) -> (r: u32)
        ensures
            r == self.mode_of(
                pane_id,
                match mode {
                    Some(m) => m,
                    None => 0,
                },
            ),
    {
        if self.is_shown(pane_id) {
            match mode {
                Some(m) => m,
                None => 0,
            }
        } else {
            0
        }
    }

    /// The mode of the focused pane's terminal. `mode` gives that of a pane.
    pub fn focused_term_mode<M>(&self, mode: M) -> (r: u32) where M: Fn(PaneId) -> Option<u32>
        requires
            forall|p: PaneId| call_requires(mode, (p,)),
        ensures
            match self.focus() {
                Some(pane) => exists|m: Option<u32>|
                    #[trigger] call_ensures(mode, (pane,), m) && r == self.mode_of(
                        pane,
                        match m {
                            Some(m) => m,
                            None => 0,
                        },
                    ),
                None => r == 0,
            },
    {
        match self.focused_pane() {
            Some(focused) => {
                let m = mode(focused);
                self.pane_term_mode(focused, m)
            },
            None => 0,
        }
    }

    /// A redraw, if there is a window.
    pub open spec fn redraw_effects(&self) -> Seq<Effect> {
        if self.has_window {
            seq![Effect::RequestRedraw]
        } else {
            seq![]
        }
    }

    pub(crate) fn redraw(&mut self)
        ensures
            final(self).only_added(*old(self), old(self).redraw_effects()),
    {
        if self.has_window {
            self.emit(Effect::RequestRedraw);
        } else {
            assert(self.effects@ =~= old(self).effects@ + Seq::<Effect>::empty());
        }
    }

    /// Starts a selection in a pane, if the screen shows it.
    pub fn start_selection(&mut self, pane_id: PaneId, col: usize, row: usize, ty: SelectionKind)
        ensures
            old(self).shows(pane_id) ==> {
                &&& *final(self) == (App {
                    selection_in_progress: true,
                    selection_pane: Some(pane_id),
                    effects: final(self).effects,
                    ..*old(self)
                })
                &&& final(self).effects@ == old(self).effects@ + seq![
                    Effect::StartSelection { pane: pane_id, col, row, kind: ty },
                ]
            },
            !old(self).shows(pane_id) ==> *final(self) == *old(self),
    {
        if !self.is_shown(pane_id) {
            return;
        }
        self.emit(Effect::StartSelection { pane: pane_id, col, row, kind: ty });
        self.selection_in_progress = true;
        self.selection_pane = Some(pane_id);
    }

    /// Moves the end of a selection, if the screen shows its pane.
    pub fn update_selection(&mut self, pane_id: PaneId, col: usize, row: usize)
        ensures
            final(self).only_added(
                *old(self),
                old(self).if_shown(
                    Some(pane_id),
                    Effect::UpdateSelection { pane: pane_id, col, row },
                ),
            ),
    {
        self.emit_if_shown(pane_id, Effect::UpdateSelection { pane: pane_id, col, row });
    }

    /// What a click on a hotspot does.
    pub open spec fn hotspot_click_effects(&self, cell: PaneCell) -> Seq<Effect> {
        match self.hotspot(cell) {
            Some(HotspotMark { kind, text }) if self.screen.pointer.cursor_known => seq![
                Effect::OpenHotspotPalette { kind, text },
            ] + self.redraw_effects(),
            _ => seq![],
        }
    }

    /// Offers what can be done with the hotspot in a cell; says whether there is
    /// one.
    pub fn handle_hotspot_click(&mut self, pane_id: PaneId, row: usize, col: usize) -> (r: bool)
        requires
            old(self).wf(),
        ensures
            final(self).wf(),
            r == (old(self).hotspot(PaneCell { pane: pane_id, row, col }) is Some && old(
                self,
            ).screen.pointer.cursor_known),
            final(self).only_added(
                *old(self),
                old(self).hotspot_click_effects(PaneCell { pane: pane_id, row, col }),
            ),
    {
        match self.hotspot_at(pane_id, row, col) {
            Some(mark) => {
                if self.screen.pointer.cursor_known {
                    self.emit(Effect::OpenHotspotPalette { kind: mark.kind, text: mark.text });
                    self.redraw();
                    assert(self.effects@ =~= old(self).effects@ + old(self).hotspot_click_effects(
                        PaneCell { pane: pane_id, row, col },
                    ));
                    return true;
                }
            },
            None => {},
        }
        assert(self.effects@ =~= old(self).effects@ + Seq::<Effect>::empty());
        false
    }

    /// The pane that a button goes to: where the left one comes up, the pane in
    /// which it went down.
    pub open spec fn button_target(&self, event: MouseEvent, under: Option<PaneId>) -> Option<
        PaneId,
    > {
        if !event.pressed && event.button == MouseButton::Left && self.screen.pointer.drag_pane
            is Some {
            self.screen.pointer.drag_pane
        } else {
            under
        }
    }

    pub fn mouse_target(&self, event: MouseEvent, under: Option<PaneId>) -> (r: Option<PaneId>)
        ensures
            r == self.button_target(event, under),
    {
        if !event.pressed && event.button == MouseButton::Left {
            match self.screen.pointer.drag_pane {
                Some(pane) => Some(pane),
                None => under,
            }
        } else {
            under
        }
    }

    /// What a click does once the button is up: a single one opens the link in
    /// its cell, or offers what can be done with the hotspot there.
    pub open spec fn click_effects(&self, pane: PaneId, cell: GridCell) -> Seq<Effect> {
        let at = PaneCell { pane, row: cell.row, col: cell.col };
        if self.screen.pointer.click_count == 1 && self.screen.pointer.last_click_pos == Some(
            cell,
        ) {
            match self.link(at) {
                Some(url) => seq![Effect::OpenUrl(url)],
                None => self.hotspot_click_effects(at),
            }
        } else {
            seq![]
        }
    }

    fn finish_click(&mut self, pane: PaneId, cell: GridCell)
        requires
            old(self).wf(),
        ensures
            final(self).only_added(*old(self), old(self).click_effects(pane, cell)),
    {
        if self.screen.pointer.click_count == 1 && self.screen.pointer.last_click_pos == Some(
            cell,
        ) {
            match self.hyperlink_at(pane, cell.row, cell.col) {
                Some(url) => self.emit(Effect::OpenUrl(url)),
                None => {
                    let _ = self.handle_hotspot_click(pane, cell.row, cell.col);
                },
            }
        } else {
            assert(self.effects@ =~= old(self).effects@ + Seq::<Effect>::empty());
        }
    }

    /// Whether a press extends the selection instead of starting one.
    pub open spec fn extends(&self, event: MouseEvent, pane: PaneId) -> bool {
        event.shift && self.selection_pane == Some(pane)
    }

    /// What a press of the left button over text does.
    pub open spec fn press_effects(&self, event: MouseEvent, pane: PaneId, cell: GridCell) -> Seq<
        Effect,
    > {
        self.if_shown(
            Some(pane),
            if self.extends(event, pane) {
                Effect::UpdateSelection { pane, col: cell.col, row: cell.row }
            } else {
                Effect::StartSelection {
                    pane,
                    col: cell.col,
                    row: cell.row,
                    kind: selection_kind(self.screen.pointer.clicks(event.now, cell)),
                }
            },
        ) + self.redraw_effects()
    }

    fn press_text(&mut self, event: MouseEvent, pane: PaneId, cell: GridCell)
        ensures
            ({
                let starts = !old(self).extends(event, pane) && old(self).shows(pane);
                *final(self) == (App {
                    screen: Screen {
                        pointer: old(self).screen.pointer.clicked(event.now, cell),
                        ..old(self).screen
                    },
                    selection_in_progress: starts || old(self).selection_in_progress,
                    selection_pane: if starts {
                        Some(pane)
                    } else {
                        old(self).selection_pane
                    },
                    effects: final(self).effects,
                    ..*old(self)
                })
            }),
            final(self).effects@ == old(self).effects@ + old(self).press_effects(event, pane, cell),
    {
        self.screen.pointer.click(event.now, cell);
        if event.shift && self.selection_pane == Some(pane) {
            self.update_selection(pane, cell.col, cell.row);
        } else {
            let clicks: u32 = self.screen.pointer.click_count;
            let kind = if clicks == 2 {
                SelectionKind::Semantic
            } else if clicks == 3 {
                SelectionKind::Lines
            } else {
                SelectionKind::Simple
            };
            self.start_selection(pane, cell.col, cell.row, kind);
        }
        self.redraw();
        assert(self.effects@ =~= old(self).effects@ + old(self).press_effects(event, pane, cell));
    }

    /// What the left button does over text when it comes up.
    pub open spec fn release_effects(&self, pane: PaneId, cell: GridCell) -> Seq<Effect> {
        self.if_shown(
            self.selection_pane,
            Effect::CopySelection { pane: self.selection_pane->0 },
        ) + self.click_effects(pane, cell)
    }

    fn release_text(&mut self, pane: PaneId, cell: GridCell)
        requires
            old(self).wf(),
        ensures
            *final(self) == (App {
                selection_in_progress: false,
                effects: final(self).effects,
                ..*old(self)
            }),
            final(self).effects@ == old(self).effects@ + old(self).release_effects(pane, cell),
    {
        self.finalize_selection();
        let ghost ended = *self;
        self.finish_click(pane, cell);
        assert(ended.click_effects(pane, cell) == old(self).click_effects(pane, cell));
        assert(self.effects@ =~= old(self).effects@ + old(self).release_effects(pane, cell));
    }

    /// What a program that wants to know is told of a button.
    pub open spec fn report_effects(&self, event: MouseEvent, pane: PaneId, cell: GridCell) -> Seq<
        Effect,
    > {
        match reported(event.button) {
            Some(button) => self.if_shown(
                Some(pane),
                Effect::ReportMouse {
                    pane,
                    report: if event.pressed {
                        MouseReport::Press(button)
                    } else {
                        MouseReport::Release(button)
                    },
                    col: cell.col,
                    row: cell.row,
                    times: 1,
                },
            ),
            None => seq![],
        }
    }

    fn report_button(&mut self, event: MouseEvent, pane: PaneId, cell: GridCell)
        ensures
            final(self).only_added(*old(self), old(self).report_effects(event, pane, cell)),
    {
        let button = match event.button {
            MouseButton::Left => ReportedButton::Left,
            MouseButton::Middle => ReportedButton::Middle,
            MouseButton::Right => ReportedButton::Right,
            MouseButton::Other => {
                assert(self.effects@ =~= old(self).effects@ + Seq::<Effect>::empty());
                return;
            },
        };
        let report = if event.pressed {
            MouseReport::Press(button)
        } else {
            MouseReport::Release(button)
        };
        self.emit_if_shown(
            pane,
            Effect::ReportMouse { pane, report, col: cell.col, row: cell.row, times: 1 },
        );
    }

    fn hold_button(&mut self, event: MouseEvent, pane: PaneId)
        ensures
            *final(self) == (App {
                screen: Screen {
                    pointer: old(self).screen.pointer.held(event, pane),
                    ..old(self).screen
                },
                ..*old(self)
            }),
            old(self).wf() ==> final(self).wf(),
            forall|m: u32| #[trigger] final(self).mode_of(pane, m) == old(self).mode_of(pane, m),
            forall|cell: GridCell| #[trigger]
                final(self).press_effects(event, pane, cell) == old(self).press_effects(
                    event,
                    pane,
                    cell,
                ),
            forall|cell: GridCell| #[trigger]
                final(self).release_effects(pane, cell) == old(self).release_effects(pane, cell),
            forall|cell: GridCell| #[trigger]
                final(self).report_effects(event, pane, cell) == old(self).report_effects(
                    event,
                    pane,
                    cell,
                ),
    {
        self.screen.pointer.hold(event, pane);
    }

    /// `self` is `old` after a button went down or up over a cell of `pane`. In a
    /// terminal whose program does not want to know, the left button selects
    /// text and opens links; in the others every button is reported.
    pub open spec fn button_handled(
        self,
        old: App,
        event: MouseEvent,
        pane: PaneId,
        cell: GridCell,
        mode: u32,
    ) -> bool {
        let held = old.screen.pointer.held(event, pane);
        let reports = term_flags::wants_mouse(old.mode_of(pane, mode));
        let starts = !old.extends(event, pane) && old.shows(pane);
        if event.button == MouseButton::Left && !reports && event.pressed {
            &&& self == (App {
                screen: Screen { pointer: held.clicked(event.now, cell), ..old.screen },
                selection_in_progress: starts || old.selection_in_progress,
                selection_pane: if starts {
                    Some(pane)
                } else {
                    old.selection_pane
                },
                effects: self.effects,
                ..old
            })
            &&& self.effects@ == old.effects@ + old.press_effects(event, pane, cell)
        } else if event.button == MouseButton::Left && !reports {
            &&& self == (App {
                screen: Screen { pointer: held, ..old.screen },
                selection_in_progress: false,
                effects: self.effects,
                ..old
            })
            &&& self.effects@ == old.effects@ + old.release_effects(pane, cell)
        } else {
            self.only_screen(
                old,
                Screen { pointer: held, ..old.screen },
                if reports {
                    old.report_effects(event, pane, cell)
                } else {
                    seq![]
                },
            )
        }
    }

    /// Handles a button that went down or up over a cell of `pane`.
    pub fn mouse_at(&mut self, event: MouseEvent, pane: PaneId, cell: GridCell, mode: u32)
        requires
            old(self).wf(),
        ensures
            final(self).wf(),
            final(self).button_handled(*old(self), event, pane, cell, mode),
    {
        self.hold_button(event, pane);
        let mode = self.pane_term_mode(pane, Some(mode));
        let reports = term_flags::mouse_mode(mode);
        if event.button == MouseButton::Left && !reports {
            if event.pressed {
                self.press_text(event, pane, cell);
            } else {
                self.release_text(pane, cell);
            }
        } else if reports {
            self.report_button(event, pane, cell);
        } else {
            assert(self.effects@ =~= old(self).effects@ + Seq::<Effect>::empty());
        }
    }

    /// Handles a button that went down or up. `under` is the pane under the
    /// pointer, and `spot` says where over a pane the pointer is. Nothing happens
    /// where the pointer is over no cell of a pane.
    pub fn handle_mouse_input<F>(&mut self, event: MouseEvent, under: Option<PaneId>, spot: F) where
        F: Fn(PaneId) -> PaneSpot,

        requires
            old(self).wf(),
            forall|p: PaneId| call_requires(spot, (p,)),
        ensures
            final(self).wf(),
            match old(self).button_target(event, under) {
                Some(pane) if old(self).screen.pointer.cursor_known => exists|s: PaneSpot|
                    #[trigger] call_ensures(spot, (pane,), s) && match s.cell {
                        Some(cell) => final(self).button_handled(
                            *old(self),
                            event,
                            pane,
                            cell,
                            s.mode,
                        ),
                        None => *final(self) == *old(self),
                    },
                _ => *final(self) == *old(self),
            },
    {
        if !self.screen.pointer.cursor_known {
            return;
        }
        let pane: PaneId = match self.mouse_target(event, under) {
            Some(id) => id,
            None => {
                return;
            },
        };
        let s = spot(pane);
        match s.cell {
            Some(cell) => self.mouse_at(event, pane, cell, s.mode),
            None => {},
        }
    }
}

} // verus!
