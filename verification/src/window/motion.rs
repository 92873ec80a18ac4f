//! The mouse in motion: hovering, dragging separators, the wheel.
use super::mouse::PaneSpot;
use super::pointer::{
    separator_cursor, CursorIcon, GridCell, MouseReport, Pointer, ReportedButton, Screen,
    SeparatorDrag,
};
use super::{App, Effect, Workspaces};
use crate::hotspot::PaneCell;
use crate::layout::{PaneId, Ratio, SplitDirection};
use crate::layout_ops::HALF_BITS;
use crate::term_flags;
use crate::term_flags::ModeFlag;
use vstd::prelude::*;

verus! {

/// The pointer at a new place.
#[derive(Debug, Clone, Copy, PartialEq, Eq, Structural)]
pub struct Motion {
    /// The pixel.
    pub x: i64,
    pub y: i64,
    /// Whether it is in the bar with the tabs.
    pub over_tab_bar: bool,
    /// The direction of the split whose separator is near.
    pub separator: Option<SplitDirection>,
    /// The ratio that the place gives the split whose separator is dragged, if it
    /// leaves room for two halves.
    pub drag_ratio: Option<Ratio>,
}

/// A turn of the wheel that is large enough to count.
#[derive(Debug, Clone, Copy, PartialEq, Eq, Structural)]
pub struct WheelTurn {
    pub up: bool,
    /// The lines of the turn, rounded up.
    pub steps: usize,
    /// The lines by which the history moves, upwards if positive.
    pub scroll: i32,
}

/// The cursor key that a program gets for the wheel, `times` over.
pub open spec fn arrow_keys(up: bool, times: nat) -> Seq<u8>
    decreases times,
{
    if times == 0 {
        seq![]
    } else {
        arrow_keys(up, (times - 1) as nat) + seq![0x1b, 0x5b, if up {
            0x41u8
        } else {
            0x42u8
        }]
    }
}

fn arrows(up: bool, times: usize) -> (r: Vec<u8>)
    ensures
        r@ == arrow_keys(up, times as nat),
{
    let mut out: Vec<u8> = Vec::new();
    let letter: u8 = if up {
        0x41
    } else {
        0x42
    };
    let mut i: usize = 0;
    while i < times
        invariant
            i <= times,
            letter == if up {
                0x41u8
            } else {
                0x42u8
            },
            out@ == arrow_keys(up, i as nat),
        decreases times - i,
    {
        out.push(0x1b);
        out.push(0x5b);
        out.push(letter);
        i += 1;
        assert(out@ =~= arrow_keys(up, i as nat));
    }
    out
}

impl Screen {
    /// The screen once the pointer was seen.
    pub open spec fn with_cursor(self) -> Screen {
        Screen { pointer: Pointer { cursor_known: true, ..self.pointer }, ..self }
    }

    fn note_cursor(&mut self)
        ensures
            *final(self) == old(self).with_cursor(),
    {
        self.pointer.cursor_known = true;
    }

    /// The screen with the pointer, no button held, at a new place. An edge of
    /// the window counts where no separator is near.
    pub open spec fn hovered(self, motion: Motion) -> Screen {
        let s = self.with_separator_looks(motion.separator is Some);
        if self.pointer.left_held {
            self
        } else if motion.separator is Some {
            s.with_edge_looks(false)
        } else if self.use_csd {
            s.with_edge_looks(s.edge(motion.x, motion.y) is Some)
        } else {
            s
        }
    }

    /// The looks that separators and edges give the pointer at a new place, one
    /// after the other.
    pub open spec fn hover_looks(
        &self,
        motion: Motion,
    ) -> (Option<CursorIcon>, Option<CursorIcon>) {
        if self.pointer.left_held {
            (None, None)
        } else if self.use_csd && motion.separator is None {
            (self.separator_looks(None), self.edge_looks(motion.x, motion.y))
        } else {
            (self.separator_looks(motion.separator), None)
        }
    }

    fn hover(&mut self, motion: Motion) -> (r: (Option<CursorIcon>, Option<CursorIcon>))
        ensures
            r == old(self).hover_looks(motion),
            *final(self) == old(self).hovered(motion),
    {
        if self.pointer.left_held {
            return (None, None);
        }
        let first = self.hover_separator(motion.separator);
        if !self.pointer.separator_cursor_active && self.use_csd {
            let second = self.hover_edge(motion.x, motion.y);
            return (first, second);
        }
        if self.pointer.edge_cursor_active && self.pointer.separator_cursor_active {
            self.pointer.edge_cursor_active = false;
        }
        (first, None)
    }

    /// Whether links may give the pointer its looks: separators and edges come
    /// first.
    pub open spec fn links_count(&self) -> bool {
        !self.pointer.separator_cursor_active && !self.pointer.edge_cursor_active
    }

    fn drop_link_looks(&mut self)
        ensures
            *final(self) == old(self).with_link_looks(false),
    {
        if self.pointer.hyperlink_cursor_active {
            self.pointer.hyperlink_cursor_active = false;
        }
    }
}

impl App {
    /// The first pane that `inside` holds of, if there is a workspace.
    pub fn pane_at_position<F>(&self, inside: F) -> (r: Option<PaneId>) where F: Fn(PaneId) -> bool
        requires
            forall|p: PaneId| call_requires(inside, (p,)),
        ensures
            r matches Some(id) ==> {
                &&& self.workspaces is Some
                &&& exists|k: int|
                    {
                        &&& 0 <= k < self.workspaces->0.layout.ids().len()
                        &&& #[trigger] self.workspaces->0.layout.ids()[k] == id
                        &&& call_ensures(inside, (id,), true)
                        &&& forall|j: int|
                            0 <= j < k ==> call_ensures(
                                inside,
                                (#[trigger] self.workspaces->0.layout.ids()[j],),
                                false,
                            )
                    }
            },
            r is None && self.workspaces is Some ==> forall|j: int|
                0 <= j < self.workspaces->0.layout.ids().len() ==> call_ensures(
                    inside,
                    (#[trigger] self.workspaces->0.layout.ids()[j],),
                    false,
                ),
    {
        match &self.workspaces {
            Some(w) => w.layout.find_pane_at(inside),
            None => None,
        }
    }

    /// `self` is `old` with the ratio of the dragged split set to `ratio`.
    pub open spec fn dragged_from(self, old: App, ratio: Option<Ratio>) -> bool {
        match (old.screen.separator_drag, ratio) {
            (Some(drag), Some(ratio)) => self.ratio_set_from(old, drag.path@, ratio),
            _ => self == old,
        }
    }

    /// `self` is `old` with the ratio of the split at `path` set to `ratio`.
    pub open spec fn ratio_set_from(self, old: App, path: Seq<bool>, ratio: Ratio) -> bool {
        &&& self == (App {
            workspaces: match old.workspaces {
                Some(w) => Some(Workspaces { layout: w.layout.with_ratio_at(path, ratio), ..w }),
                None => None,
            },
            effects: self.effects,
            ..old
        })
        &&& self.effects@ == old.effects@ + seq![Effect::RelayoutAndRedraw]
    }

    fn set_ratio(&mut self, path: &Vec<bool>, ratio: Ratio)
        ensures
            final(self).ratio_set_from(*old(self), path@, ratio),
    {
        if let Some(w) = &mut self.workspaces {
            w.layout.set_ratio_at_path(path, ratio);
        }
        self.emit(Effect::RelayoutAndRedraw);
    }

    /// Moves the separator that is being dragged.
    pub fn update_separator_drag(&mut self, ratio: Option<Ratio>)
        ensures
            final(self).dragged_from(*old(self), ratio),
    {
        let path: Vec<bool> = match &self.screen.separator_drag {
            Some(drag) => copy_path(&drag.path),
            None => {
                return;
            },
        };
        if let Some(ratio) = ratio {
            self.set_ratio(&path, ratio);
        }
    }

    /// Starts to drag a separator that is near; says whether one is.
    pub fn try_start_separator_drag(&mut self, hit: Option<SeparatorDrag>) -> (r: bool)
        ensures
            r == hit is Some,
            match hit {
                Some(drag) => final(self).only_screen(
                    *old(self),
                    Screen {
                        separator_drag: Some(drag),
                        ..old(self).screen.with_separator_looks(true)
                    },
                    old(self).cursor_effects(Some(super::pointer::separator_icon(drag.direction))),
                ),
                None => *final(self) == *old(self),
            },
    {
        match hit {
            Some(drag) => {
                self.set_cursor(Some(separator_cursor(drag.direction)));
                self.screen.pointer.separator_cursor_active = true;
                self.screen.separator_drag = Some(drag);
                true
            },
            None => false,
        }
    }

    /// Ends the drag of a separator. `hit` is the direction of the split whose
    /// separator is near.
    pub fn end_separator_drag(&mut self, hit: Option<SplitDirection>)
        ensures
            ({
                let ended = Screen { separator_drag: None, ..old(self).screen };
                if old(self).screen.pointer.cursor_known {
                    final(self).only_screen(
                        *old(self),
                        ended.with_separator_looks(hit is Some),
                        old(self).cursor_effects(ended.separator_looks(hit)),
                    )
                } else {
                    final(self).only_screen(
                        *old(self),
                        ended.with_separator_looks(false),
                        old(self).cursor_effects(Some(CursorIcon::Default)),
                    )
                }
            }),
    {
        self.screen.separator_drag = None;
        if self.screen.pointer.cursor_known {
            self.update_separator_hover(hit);
        } else {
            self.screen.pointer.separator_cursor_active = false;
            self.set_cursor(Some(CursorIcon::Default));
        }
    }

    /// Puts a separator that is near back into the middle; says whether one is.
    pub fn try_separator_double_click(&mut self, hit: Option<&SeparatorDrag>) -> (r: bool)
        ensures
            r == hit is Some,
            match hit {
                Some(drag) => final(self).ratio_set_from(
                    *old(self),
                    drag.path@,
                    Ratio { bits: HALF_BITS },
                ),
                None => *final(self) == *old(self),
            },
    {
        match hit {
            Some(drag) => {
                self.set_ratio(&drag.path, Ratio { bits: HALF_BITS });
                true
            },
            None => false,
        }
    }

    /// `self` is `old` once the pointer was seen at a new place. The buttons of a
    /// frame of the window's own light up under it.
    pub open spec fn seen_from(self, old: App, motion: Motion) -> bool {
        self.only_screen(
            old,
            old.screen.with_cursor(),
            if old.screen.use_csd && motion.over_tab_bar {
                seq![Effect::RequestRedraw]
            } else {
                seq![]
            },
        )
    }

    fn see(&mut self, motion: Motion)
        ensures
            final(self).seen_from(*old(self), motion),
    {
        self.screen.note_cursor();
        if self.screen.use_csd && motion.over_tab_bar {
            self.emit(Effect::RequestRedraw);
        } else {
            assert(self.effects@ =~= old(self).effects@ + Seq::<Effect>::empty());
        }
    }

    /// The looks that the pointer gets at a new place from separators and edges.
    pub open spec fn hover_effects(&self, motion: Motion) -> Seq<Effect> {
        self.cursor_effects(self.screen.hover_looks(motion).0) + self.cursor_effects(
            self.screen.hover_looks(motion).1,
        )
    }

    /// `self` is `old` with the pointer's looks for a new place.
    pub open spec fn hovered_from(self, old: App, motion: Motion) -> bool {
        self.only_screen(old, old.screen.hovered(motion), old.hover_effects(motion))
    }

    fn hover(&mut self, motion: Motion)
        ensures
            final(self).hovered_from(*old(self), motion),
    {
        let (first, second) = self.screen.hover(motion);
        self.set_cursor(first);
        self.set_cursor(second);
        assert(self.effects@ =~= old(self).effects@ + old(self).hover_effects(motion));
    }

    /// The pane that motion goes to: while the left button is held, the one in
    /// which it went down.
    pub open spec fn motion_target(&self, under: Option<PaneId>) -> Option<PaneId> {
        if self.screen.pointer.left_held {
            self.screen.pointer.drag_pane
        } else {
            under
        }
    }

    /// Whether a program is told of motion with the left button held.
    pub open spec fn reports_drag(mode: u32) -> bool {
        term_flags::mode_set(mode, ModeFlag::MouseDrag) || term_flags::mode_set(
            mode,
            ModeFlag::MouseMotion,
        )
    }

    /// What motion with the left button held does.
    pub open spec fn drag_effects(&self, pane: PaneId, cell: GridCell, mode: u32) -> Seq<Effect> {
        if self.selection_in_progress {
            self.if_shown(
                Some(pane),
                Effect::UpdateSelection { pane, col: cell.col, row: cell.row },
            ) + self.redraw_effects()
        } else if App::reports_drag(self.mode_of(pane, mode)) {
            self.if_shown(
                Some(pane),
                Effect::ReportMouse {
                    pane,
                    report: MouseReport::Drag(ReportedButton::Left),
                    col: cell.col,
                    row: cell.row,
                    times: 1,
                },
            )
        } else {
            seq![]
        }
    }

    /// Handles motion over a cell of `pane` with the left button held.
    pub fn drag_at(&mut self, pane: PaneId, cell: GridCell, mode: u32)
        ensures
            final(self).only_added(*old(self), old(self).drag_effects(pane, cell, mode)),
    {
        if self.selection_in_progress {
            self.update_selection(pane, cell.col, cell.row);
            self.redraw();
            assert(self.effects@ =~= old(self).effects@ + old(self).drag_effects(pane, cell, mode));
            return;
        }
        let mode = self.pane_term_mode(pane, Some(mode));
        if term_flags::mode_contains(mode, ModeFlag::MouseDrag) || term_flags::mode_contains(
            mode,
            ModeFlag::MouseMotion,
        ) {
            self.emit_if_shown(
                pane,
                Effect::ReportMouse {
                    pane,
                    report: MouseReport::Drag(ReportedButton::Left),
                    col: cell.col,
                    row: cell.row,
                    times: 1,
                },
            );
        } else {
            assert(self.effects@ =~= old(self).effects@ + Seq::<Effect>::empty());
        }
    }

    /// Whether a cell holds a link or a hotspot.
    pub open spec fn is_target(&self, pane: PaneId, cell: GridCell) -> bool {
        let at = PaneCell { pane, row: cell.row, col: cell.col };
        self.link(at) is Some || self.hotspot(at) is Some
    }

    /// What motion over a cell with no button held does.
    pub open spec fn free_effects(&self, pane: PaneId, cell: GridCell, mode: u32) -> Seq<Effect> {
        self.look_effects(pane, cell) + (if term_flags::mode_set(
            self.mode_of(pane, mode),
            ModeFlag::MouseMotion,
        ) {
            self.if_shown(
                Some(pane),
                Effect::ReportMouse {
                    pane,
                    report: MouseReport::Motion,
                    col: cell.col,
                    row: cell.row,
                    times: 1,
                },
            )
        } else {
            seq![]
        })
    }

    /// What the pointer's looks get from the links at a cell.
    pub open spec fn look_effects(&self, pane: PaneId, cell: GridCell) -> Seq<Effect> {
        if self.screen.links_count() {
            self.cursor_effects(self.screen.link_looks(self.is_target(pane, cell)))
        } else {
            seq![]
        }
    }

    fn look_at(&mut self, pane: PaneId, cell: GridCell)
        requires
            old(self).wf(),
        ensures
            final(self).only_screen(
                *old(self),
                old(self).screen.with_link_looks(
                    old(self).screen.links_count() && old(self).is_target(pane, cell),
                ),
                old(self).look_effects(pane, cell),
            ),
    {
        if !self.screen.pointer.separator_cursor_active && !self.screen.pointer.edge_cursor_active {
            self.update_hyperlink_hover(pane, cell.row, cell.col);
        } else {
            self.screen.drop_link_looks();
            assert(self.effects@ =~= old(self).effects@ + Seq::<Effect>::empty());
        }
    }

    /// Handles motion over a cell of `pane` with no button held.
    pub fn move_at(&mut self, pane: PaneId, cell: GridCell, mode: u32)
        requires
            old(self).wf(),
        ensures
            final(self).wf(),
            final(self).only_screen(
                *old(self),
                old(self).screen.with_link_looks(
                    old(self).screen.links_count() && old(self).is_target(pane, cell),
                ),
                old(self).free_effects(pane, cell, mode),
            ),
    {
        self.look_at(pane, cell);
        let mode = self.pane_term_mode(pane, Some(mode));
        if term_flags::mode_contains(mode, ModeFlag::MouseMotion) {
            self.emit_if_shown(
                pane,
                Effect::ReportMouse {
                    pane,
                    report: MouseReport::Motion,
                    col: cell.col,
                    row: cell.row,
                    times: 1,
                },
            );
        }
        assert(self.effects@ =~= old(self).effects@ + old(self).free_effects(pane, cell, mode));
    }

    /// `self` is `old` after motion over a cell of `pane`.
    pub open spec fn motion_handled(
        self,
        old: App,
        pane: PaneId,
        cell: GridCell,
        mode: u32,
    ) -> bool {
        if old.screen.pointer.left_held {
            self.only_added(old, old.drag_effects(pane, cell, mode))
        } else {
            self.only_screen(
                old,
                old.screen.with_link_looks(old.screen.links_count() && old.is_target(pane, cell)),
                old.free_effects(pane, cell, mode),
            )
        }
    }

    /// Handles the pointer at a new place. `under` is the pane under it, and
    /// `spot` says where over a pane it is. A separator that is dragged comes
    /// before everything else.
    pub fn handle_cursor_moved<F>(&mut self, motion: Motion, under: Option<PaneId>, spot: F) where
        F: Fn(PaneId) -> PaneSpot,

        requires
            old(self).wf(),
            forall|p: PaneId| call_requires(spot, (p,)),
        ensures
            final(self).wf(),
            exists|seen: App| #[trigger]
                seen.seen_from(*old(self), motion) && if seen.screen.separator_drag is Some {
                    final(self).dragged_from(seen, motion.drag_ratio)
                } else {
                    exists|mid: App| #[trigger]
                        mid.hovered_from(seen, motion) && match mid.motion_target(under) {
                            Some(pane) => exists|s: PaneSpot| #[trigger]
                                call_ensures(spot, (pane,), s) && match s.cell {
                                    Some(cell) => final(self).motion_handled(
                                        mid,
                                        pane,
                                        cell,
                                        s.mode,
                                    ),
                                    None => *final(self) == mid,
                                },
                            None => *final(self) == mid,
                        }
                },
    {
        self.see(motion);
        let ghost seen = *self;
        assert(seen.seen_from(*old(self), motion));
        if self.screen.separator_drag.is_some() {
            self.update_separator_drag(motion.drag_ratio);
            return;
        }
        self.hover(motion);
        let ghost mid = *self;
        assert(mid.hovered_from(seen, motion));
        let held = self.screen.pointer.left_held;
        let target: Option<PaneId> = if held {
            self.screen.pointer.drag_pane
        } else {
            under
        };
        let pane: PaneId = match target {
            Some(id) => id,
            None => {
                return;
            },
        };
        let s = spot(pane);
        match s.cell {
            Some(cell) => {
                if held {
                    self.drag_at(pane, cell, s.mode);
                } else {
                    self.move_at(pane, cell, s.mode);
                }
            },
            None => {},
        }
    }

    /// `self` is `old` after a turn of the wheel over `pane`. A program that
    /// wants to know of the mouse gets the turn as presses of a button, one on
    /// the alternate screen as cursor keys; otherwise the history scrolls.
    pub open spec fn wheel_handled(
        self,
        old: App,
        turn: WheelTurn,
        pane: PaneId,
        spot: PaneSpot,
    ) -> bool {
        let mode = old.mode_of(pane, spot.mode);
        let cell = match spot.cell {
            Some(c) => c,
            None => GridCell { col: 0, row: 0 },
        };
        &&& self == (App { effects: self.effects, ..old })
        &&& if term_flags::wants_mouse(mode) {
            self.effects@ == old.effects@ + old.if_shown(
                Some(pane),
                Effect::ReportMouse {
                    pane,
                    report: MouseReport::Press(
                        if turn.up {
                            ReportedButton::ScrollUp
                        } else {
                            ReportedButton::ScrollDown
                        },
                    ),
                    col: cell.col,
                    row: cell.row,
                    times: turn.steps,
                },
            )
        } else if term_flags::mode_set(mode, ModeFlag::AltScreen) && term_flags::mode_set(
            mode,
            ModeFlag::AlternateScroll,
        ) {
            if old.shows(pane) {
                &&& self.effects@.len() == old.effects@.len() + 1
                &&& self.effects@.drop_last() == old.effects@
                &&& self.effects@.last().writes(pane, arrow_keys(turn.up, turn.steps as nat))
            } else {
                self.effects@ == old.effects@
            }
        } else {
            self.effects@ == old.effects@ + old.if_shown(
                Some(pane),
                Effect::ScrollDisplay { pane, lines: turn.scroll },
            ) + seq![Effect::RequestRedraw]
        }
    }

    /// Handles a turn of the wheel over `pane`.
    pub fn wheel_at(&mut self, turn: WheelTurn, pane: PaneId, spot: PaneSpot)
        ensures
            final(self).wheel_handled(*old(self), turn, pane, spot),
    {
        let mode = self.pane_term_mode(pane, Some(spot.mode));
        if term_flags::mouse_mode(mode) {
            let cell = match spot.cell {
                Some(c) => c,
                None => GridCell { col: 0, row: 0 },
            };
            let button = if turn.up {
                ReportedButton::ScrollUp
            } else {
                ReportedButton::ScrollDown
            };
            self.emit_if_shown(
                pane,
                Effect::ReportMouse {
                    pane,
                    report: MouseReport::Press(button),
                    col: cell.col,
                    row: cell.row,
                    times: turn.steps,
                },
            );
        } else if term_flags::mode_contains(mode, ModeFlag::AltScreen)
            && term_flags::mode_contains(mode, ModeFlag::AlternateScroll) {
            let bytes = arrows(turn.up, turn.steps);
            self.pty_write_to_pane(bytes, pane);
            assert(self.effects@.len() > old(self).effects@.len() ==> self.effects@.drop_last()
                =~= old(self).effects@);
            assert(self.effects@.len() == old(self).effects@.len() ==> self.effects@ =~= old(
                self,
            ).effects@);
        } else {
            self.emit_if_shown(pane, Effect::ScrollDisplay { pane, lines: turn.scroll });
            self.emit(Effect::RequestRedraw);
        }
    }

    /// Handles a turn of the wheel over the pane `under` the pointer; nothing
    /// happens for one that is too small to count.
    pub fn handle_mouse_wheel<F>(&mut self, turn: Option<WheelTurn>, under: Option<PaneId>, spot: F)
        where F: Fn(PaneId) -> PaneSpot
        requires
            forall|p: PaneId| call_requires(spot, (p,)),
        ensures
            match (under, turn) {
                (Some(pane), Some(turn)) if old(self).screen.pointer.cursor_known => exists|
                    s: PaneSpot,
                | #[trigger]
                    call_ensures(spot, (pane,), s) && final(self).wheel_handled(
                        *old(self),
                        turn,
                        pane,
                        s,
                    ),
                _ => *final(self) == *old(self),
            },
    {
        if !self.screen.pointer.cursor_known {
            return;
        }
        if let Some(pane) = under {
            if let Some(turn) = turn {
                let s = spot(pane);
                self.wheel_at(turn, pane, s);
            }
        }
    }
}

/// A separator and an edge never give the pointer its looks together.
pub proof fn law_separator_before_edge(screen: Screen, motion: Motion)
    requires
        !screen.pointer.left_held,
    ensures
        !(screen.hovered(motion).pointer.separator_cursor_active && screen.hovered(
            motion,
        ).pointer.edge_cursor_active),
{
}

/// Links give the pointer its looks only where no separator and no edge does.
pub proof fn law_links_last(old: App, new: App, pane: PaneId, cell: GridCell, mode: u32)
    requires
        !old.screen.pointer.left_held,
        new.motion_handled(old, pane, cell, mode),
        new.screen.pointer.hyperlink_cursor_active,
    ensures
        !new.screen.pointer.separator_cursor_active,
        !new.screen.pointer.edge_cursor_active,
        old.is_target(pane, cell),
{
}

fn copy_path(path: &Vec<bool>) -> (r: Vec<bool>)
    ensures
        r@ == path@,
{
    let mut r: Vec<bool> = Vec::new();
    let mut i: usize = 0;
    while i < path.len()
        invariant
            i <= path@.len(),
            r@ == path@.take(i as int),
        decreases path@.len() - i,
    {
        r.push(path[i]);
        i += 1;
        assert(r@ =~= path@.take(i as int));
    }
    assert(path@.take(i as int) =~= path@);
    r
}

} // verus!
