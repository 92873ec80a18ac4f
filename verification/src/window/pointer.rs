//! The pointer: what it is over, and what it looks like there.
use super::{App, Effect};
use crate::hotspot::{CellMap, HotspotKind, PaneCell};
use crate::layout::{PaneId, SplitDirection};
use vstd::prelude::*;

verus! {

/// How the pointer looks.
#[derive(Debug, Clone, Copy, PartialEq, Eq, Structural)]
pub enum CursorIcon {
    Default,
    Pointer,
    EwResize,
    NsResize,
    NResize,
    SResize,
    EResize,
    WResize,
    NeResize,
    NwResize,
    SeResize,
    SwResize,
}

/// What a selection marks around the cell where it starts.
#[derive(Debug, Clone, Copy, PartialEq, Eq, Structural)]
pub enum SelectionKind {
    Simple,
    /// A word.
    Semantic,
    Lines,
}

/// A button of the mouse, as a program in a terminal sees it.
#[derive(Debug, Clone, Copy, PartialEq, Eq, Structural)]
pub enum ReportedButton {
    Left,
    Middle,
    Right,
    ScrollUp,
    ScrollDown,
}

/// What a program in a terminal is told of the mouse.
#[derive(Debug, Clone, Copy, PartialEq, Eq, Structural)]
pub enum MouseReport {
    Press(ReportedButton),
    Release(ReportedButton),
    Drag(ReportedButton),
    Motion,
}

/// The hotspot in a cell.
#[derive(Debug, PartialEq, Eq)]
pub struct HotspotMark {
    pub kind: HotspotKind,
    pub text: String,
}

/// A separator that is being dragged.
#[derive(Debug, PartialEq, Eq)]
pub struct SeparatorDrag {
    /// The way from the root of the tree to the split: the first half or, where
    /// it is true, the second.
    pub path: Vec<bool>,
    pub direction: SplitDirection,
}

/// A cell of the grid of a pane.
#[derive(Debug, Clone, Copy, PartialEq, Eq, Structural)]
pub struct GridCell {
    pub col: usize,
    pub row: usize,
}

/// What is remembered of the pointer.
#[derive(Debug, Clone, Copy, PartialEq, Eq, Structural)]
pub struct Pointer {
    /// Whether the pointer was ever seen over the window.
    pub cursor_known: bool,
    pub left_held: bool,
    /// The pane in which the left button went down.
    pub drag_pane: Option<PaneId>,
    /// When the left button last went down, in milliseconds.
    pub last_click_time: Option<u64>,
    /// The cell where it did.
    pub last_click_pos: Option<GridCell>,
    /// How many clicks followed each other.
    pub click_count: u32,
    /// Whether the pointer looks as it does over a separator.
    pub separator_cursor_active: bool,
    /// Whether the pointer looks as it does at an edge of the window.
    pub edge_cursor_active: bool,
    /// Whether the pointer looks as it does over a link.
    pub hyperlink_cursor_active: bool,
}

/// What becomes of the pointer's looks over a link.
#[derive(Debug, Clone, Copy, PartialEq, Eq, Structural)]
pub enum HoverCursorTransition {
    Activate,
    Deactivate,
    NoChange,
}

pub open spec fn hover_transition(active: bool, wanted: bool) -> HoverCursorTransition {
    if active == wanted {
        HoverCursorTransition::NoChange
    } else if wanted {
        HoverCursorTransition::Activate
    } else {
        HoverCursorTransition::Deactivate
    }
}

/// The looks follow what is under the pointer, and change only when that does.
pub fn hover_cursor_transition(currently_active: bool, on_link: bool, on_hotspot: bool) -> (r:
    HoverCursorTransition)
    ensures
        r == hover_transition(currently_active, on_link || on_hotspot),
{
    let want_pointer = on_link || on_hotspot;
    match (currently_active, want_pointer) {
        (false, true) => HoverCursorTransition::Activate,
        (true, false) => HoverCursorTransition::Deactivate,
        _ => HoverCursorTransition::NoChange,
    }
}

/// Whether the link looks are on after a transition.
pub open spec fn after_transition(active: bool, t: HoverCursorTransition) -> bool {
    match t {
        HoverCursorTransition::Activate => true,
        HoverCursorTransition::Deactivate => false,
        HoverCursorTransition::NoChange => active,
    }
}

/// After every transition the looks are those that the place calls for, and a
/// second look at the same place changes nothing.
pub proof fn law_hover_settles(active: bool, wanted: bool)
    ensures
        after_transition(active, hover_transition(active, wanted)) == wanted,
        hover_transition(
            after_transition(active, hover_transition(active, wanted)),
            wanted,
        ) == HoverCursorTransition::NoChange,
{
}

/// An edge or corner by which a window without a frame is resized.
#[derive(Debug, Clone, Copy, PartialEq, Eq, Structural)]
pub enum ResizeEdge {
    N,
    S,
    E,
    W,
    NE,
    NW,
    SE,
    SW,
}

/// The direction in which the windowing system resizes a window.
#[derive(Debug, Clone, Copy, PartialEq, Eq, Structural)]
pub enum ResizeDirection {
    North,
    South,
    East,
    West,
    NorthEast,
    NorthWest,
    SouthEast,
    SouthWest,
}

impl ResizeEdge {
    pub open spec fn direction(self) -> ResizeDirection {
        match self {
            ResizeEdge::N => ResizeDirection::North,
            ResizeEdge::S => ResizeDirection::South,
            ResizeEdge::E => ResizeDirection::East,
            ResizeEdge::W => ResizeDirection::West,
            ResizeEdge::NE => ResizeDirection::NorthEast,
            ResizeEdge::NW => ResizeDirection::NorthWest,
            ResizeEdge::SE => ResizeDirection::SouthEast,
            ResizeEdge::SW => ResizeDirection::SouthWest,
        }
    }

    pub open spec fn icon(self) -> CursorIcon {
        match self {
            ResizeEdge::N => CursorIcon::NResize,
            ResizeEdge::S => CursorIcon::SResize,
            ResizeEdge::E => CursorIcon::EResize,
            ResizeEdge::W => CursorIcon::WResize,
            ResizeEdge::NE => CursorIcon::NeResize,
            ResizeEdge::NW => CursorIcon::NwResize,
            ResizeEdge::SE => CursorIcon::SeResize,
            ResizeEdge::SW => CursorIcon::SwResize,
        }
    }

    /// The direction to hand to the windowing system.
    pub fn to_resize_direction(self) -> (r: ResizeDirection)
        ensures
            r == self.direction(),
    {
        match self {
            ResizeEdge::N => ResizeDirection::North,
            ResizeEdge::S => ResizeDirection::South,
            ResizeEdge::E => ResizeDirection::East,
            ResizeEdge::W => ResizeDirection::West,
            ResizeEdge::NE => ResizeDirection::NorthEast,
            ResizeEdge::NW => ResizeDirection::NorthWest,
            ResizeEdge::SE => ResizeDirection::SouthEast,
            ResizeEdge::SW => ResizeDirection::SouthWest,
        }
    }

    fn cursor_icon(self) -> (r: CursorIcon)
        ensures
            r == self.icon(),
    {
        match self {
            ResizeEdge::N => CursorIcon::NResize,
            ResizeEdge::S => CursorIcon::SResize,
            ResizeEdge::E => CursorIcon::EResize,
            ResizeEdge::W => CursorIcon::WResize,
            ResizeEdge::NE => CursorIcon::NeResize,
            ResizeEdge::NW => CursorIcon::NwResize,
            ResizeEdge::SE => CursorIcon::SeResize,
            ResizeEdge::SW => CursorIcon::SwResize,
        }
    }
}

/// How near to an edge of the window, in pixels, it can be resized.
pub const EDGE_RESIZE_TOLERANCE: u32 = 6;

/// How near to a separator, in pixels, it can be dragged.
pub const SEPARATOR_HIT_TOLERANCE: u32 = 4;

/// The edge or corner within `tolerance` of the pixel, corners first.
pub open spec fn edge_at(x: int, y: int, width: int, height: int, tolerance: int) -> Option<
    ResizeEdge,
> {
    let (left, right) = (x < tolerance, x >= width - tolerance);
    let (top, bottom) = (y < tolerance, y >= height - tolerance);
    if !(0 <= x < width && 0 <= y < height) {
        None
    } else if top && left {
        Some(ResizeEdge::NW)
    } else if top && right {
        Some(ResizeEdge::NE)
    } else if bottom && left {
        Some(ResizeEdge::SW)
    } else if bottom && right {
        Some(ResizeEdge::SE)
    } else if top {
        Some(ResizeEdge::N)
    } else if bottom {
        Some(ResizeEdge::S)
    } else if left {
        Some(ResizeEdge::W)
    } else if right {
        Some(ResizeEdge::E)
    } else {
        None
    }
}

/// A pixel inside of the window has an edge exactly where it is less than
/// `tolerance` away from one.
pub proof fn law_edge_band(x: int, y: int, width: int, height: int, tolerance: int)
    ensures
        edge_at(x, y, width, height, tolerance) is Some <==> 0 <= x < width && 0 <= y < height && !(
        tolerance <= x < width - tolerance && tolerance <= y < height - tolerance),
{
}

/// In a window that is larger than two bands, each corner is the corner of the
/// two edges that it is near to.
pub proof fn law_corners(x: int, y: int, width: int, height: int, tolerance: int)
    requires
        0 <= x < width,
        0 <= y < height,
        0 < tolerance,
        2 * tolerance <= width,
        2 * tolerance <= height,
    ensures
        edge_at(x, y, width, height, tolerance) == Some(ResizeEdge::NW) <==> x < tolerance && y
            < tolerance,
        edge_at(x, y, width, height, tolerance) == Some(ResizeEdge::NE) <==> x >= width - tolerance
            && y < tolerance,
        edge_at(x, y, width, height, tolerance) == Some(ResizeEdge::SW) <==> x < tolerance && y
            >= height - tolerance,
        edge_at(x, y, width, height, tolerance) == Some(ResizeEdge::SE) <==> x >= width - tolerance
            && y >= height - tolerance,
{
}

/// Where on the header of a pane the pointer is.
#[derive(Debug, Clone, Copy, PartialEq, Eq, Structural)]
pub struct HeaderSpot {
    /// Within the strip.
    pub in_strip: bool,
    pub on_close: bool,
    pub on_vsplit: bool,
    pub on_hsplit: bool,
}

/// What a click on the header of a pane asks for.
#[derive(Debug, Clone, Copy, PartialEq, Eq, Structural)]
pub enum HeaderAction {
    Focus(PaneId),
    Close(PaneId),
    SplitH(PaneId),
    SplitV(PaneId),
}

pub open spec fn header_action(pane: PaneId, spot: HeaderSpot) -> Option<HeaderAction> {
    if !spot.in_strip {
        None
    } else if spot.on_close {
        Some(HeaderAction::Close(pane))
    } else if spot.on_vsplit {
        Some(HeaderAction::SplitV(pane))
    } else if spot.on_hsplit {
        Some(HeaderAction::SplitH(pane))
    } else {
        Some(HeaderAction::Focus(pane))
    }
}

/// The cell that a pixel is in, given how many cells it is right of and below
/// the first one: none above or left of the grid, and the last one behind it.
pub open spec fn cell_at(col: int, row: int, columns: int, lines: int) -> Option<(int, int)> {
    if col < 0 || row < 0 {
        None
    } else {
        Some(
            (
                if columns == 0 {
                    0
                } else if col < columns {
                    col
                } else {
                    columns - 1
                },
                if lines == 0 {
                    0
                } else if row < lines {
                    row
                } else {
                    lines - 1
                },
            ),
        )
    }
}

fn last_of(n: usize, bound: usize) -> (r: usize)
    ensures
        r == if bound == 0 {
            0
        } else if n < bound {
            n as int
        } else {
            bound - 1
        },
{
    if bound == 0 {
        0
    } else if n < bound {
        n
    } else {
        bound - 1
    }
}

/// The cell that a pixel is in.
pub fn grid_cell(col: i64, row: i64, columns: usize, lines: usize) -> (r: Option<GridCell>)
    requires
        col <= usize::MAX,
        row <= usize::MAX,
    ensures
        match cell_at(col as int, row as int, columns as int, lines as int) {
            Some((c, l)) => r matches Some(cell) && cell.col == c && cell.row == l,
            None => r is None,
        },
{
    if col < 0 || row < 0 {
        None
    } else {
        Some(GridCell { col: last_of(col as usize, columns), row: last_of(row as usize, lines) })
    }
}

/// The frame of the window, the pointer, and what it can be over.
#[derive(Debug)]
pub struct Screen {
    /// Whether the window draws its own frame.
    pub use_csd: bool,
    pub show_pane_headers: bool,
    /// Width and height of the window in pixels.
    pub surface: Option<(u32, u32)>,
    pub pointer: Pointer,
    /// The separator that is being dragged.
    pub separator_drag: Option<SeparatorDrag>,
    /// The links that are drawn.
    pub hyperlinks: CellMap<String>,
    /// The hotspots that are drawn.
    pub hotspots: CellMap<HotspotMark>,
}

/// The looks over a separator.
pub open spec fn separator_icon(direction: SplitDirection) -> CursorIcon {
    match direction {
        SplitDirection::Horizontal => CursorIcon::EwResize,
        SplitDirection::Vertical => CursorIcon::NsResize,
    }
}

pub(crate) fn separator_cursor(direction: SplitDirection) -> (r: CursorIcon)
    ensures
        r == separator_icon(direction),
{
    match direction {
        SplitDirection::Horizontal => CursorIcon::EwResize,
        SplitDirection::Vertical => CursorIcon::NsResize,
    }
}

impl Screen {
    pub open spec fn wf(&self) -> bool {
        self.hyperlinks.wf() && self.hotspots.wf()
    }

    /// The edge of this window at a pixel; none where the system draws the frame
    /// and has edges of its own.
    pub open spec fn edge(&self, px: i64, py: i64) -> Option<ResizeEdge> {
        match self.surface {
            Some((w, h)) if self.use_csd => edge_at(
                px as int,
                py as int,
                w as int,
                h as int,
                EDGE_RESIZE_TOLERANCE as int,
            ),
            _ => None,
        }
    }

    fn edge_of(&self, px: i64, py: i64) -> (r: Option<ResizeEdge>)
        ensures
            r == self.edge(px, py),
    {
        if !self.use_csd {
            return None;
        }
        match self.surface {
            Some((w, h)) => App::edge_hit_test_geom(px, py, w, h, EDGE_RESIZE_TOLERANCE),
            None => None,
        }
    }

    /// The new looks, if they change, with the pointer over a link or not.
    pub open spec fn link_looks(&self, wanted: bool) -> Option<CursorIcon> {
        match hover_transition(self.pointer.hyperlink_cursor_active, wanted) {
            HoverCursorTransition::Activate => Some(CursorIcon::Pointer),
            HoverCursorTransition::Deactivate => Some(CursorIcon::Default),
            HoverCursorTransition::NoChange => None,
        }
    }

    /// The screen with the link looks on or off.
    pub open spec fn with_link_looks(self, on: bool) -> Screen {
        Screen { pointer: Pointer { hyperlink_cursor_active: on, ..self.pointer }, ..self }
    }

    fn hover_link(&mut self, on_link: bool, on_hotspot: bool) -> (r: Option<CursorIcon>)
        ensures
            r == old(self).link_looks(on_link || on_hotspot),
            *final(self) == old(self).with_link_looks(on_link || on_hotspot),
    {
        match hover_cursor_transition(self.pointer.hyperlink_cursor_active, on_link, on_hotspot) {
            HoverCursorTransition::Activate => {
                self.pointer.hyperlink_cursor_active = true;
                Some(CursorIcon::Pointer)
            },
            HoverCursorTransition::Deactivate => {
                self.pointer.hyperlink_cursor_active = false;
                Some(CursorIcon::Default)
            },
            HoverCursorTransition::NoChange => None,
        }
    }

    /// The new looks, if they change, with a separator near or not.
    pub open spec fn separator_looks(&self, hit: Option<SplitDirection>) -> Option<CursorIcon> {
        match hit {
            Some(d) if !self.pointer.separator_cursor_active => Some(separator_icon(d)),
            None if self.pointer.separator_cursor_active => Some(CursorIcon::Default),
            _ => None,
        }
    }

    /// The screen with the separator looks on or off.
    pub open spec fn with_separator_looks(self, on: bool) -> Screen {
        Screen { pointer: Pointer { separator_cursor_active: on, ..self.pointer }, ..self }
    }

    pub(crate) fn hover_separator(&mut self, hit: Option<SplitDirection>) -> (r: Option<CursorIcon>)
        ensures
            r == old(self).separator_looks(hit),
            *final(self) == old(self).with_separator_looks(hit is Some),
    {
        let active = self.pointer.separator_cursor_active;
        self.pointer.separator_cursor_active = hit.is_some();
        match hit {
            Some(d) => if active {
                None
            } else {
                Some(separator_cursor(d))
            },
            None => if active {
                Some(CursorIcon::Default)
            } else {
                None
            },
        }
    }

    /// The new looks, if they change, at a pixel near an edge or not. At an edge
    /// they are set each time.
    pub open spec fn edge_looks(&self, px: i64, py: i64) -> Option<CursorIcon> {
        match self.edge(px, py) {
            Some(e) => Some(e.icon()),
            None => if self.pointer.edge_cursor_active {
                Some(CursorIcon::Default)
            } else {
                None
            },
        }
    }

    /// The screen with the edge looks on or off.
    pub open spec fn with_edge_looks(self, on: bool) -> Screen {
        Screen { pointer: Pointer { edge_cursor_active: on, ..self.pointer }, ..self }
    }

    pub(crate) fn hover_edge(&mut self, px: i64, py: i64) -> (r: Option<CursorIcon>)
        ensures
            r == old(self).edge_looks(px, py),
            *final(self) == old(self).with_edge_looks(old(self).edge(px, py) is Some),
    {
        let active = self.pointer.edge_cursor_active;
        let hit = self.edge_of(px, py);
        self.pointer.edge_cursor_active = hit.is_some();
        match hit {
            Some(edge) => Some(edge.cursor_icon()),
            None => if active {
                Some(CursorIcon::Default)
            } else {
                None
            },
        }
    }
}

impl App {
    /// Whether there is a workspace with more than one pane, and headers are on.
    pub open spec fn headers_drawn(&self) -> bool {
        &&& self.screen.show_pane_headers
        &&& self.workspaces matches Some(w) && w.layout.panes().len() > 1
    }

    /// What a click on the header of the pane under the pointer asks for; none
    /// while there is a single pane, or headers are off.
    pub fn header_hit_test(&self, under: Option<PaneId>, spot: HeaderSpot) -> (r: Option<
        HeaderAction,
    >)
        ensures
            r == match under {
                Some(pane) if self.headers_drawn() && self.shows(pane) => header_action(pane, spot),
                _ => None::<HeaderAction>,
            },
    {
        match &self.workspaces {
            None => {
                return None;
            },
            Some(w) => {
                if w.layout.pane_count() <= 1 {
                    return None;
                }
            },
        }
        if !self.screen.show_pane_headers {
            return None;
        }
        let pane: PaneId = match under {
            Some(id) => id,
            None => {
                return None;
            },
        };
        if !self.is_shown(pane) || !spot.in_strip {
            return None;
        }
        if spot.on_close {
            Some(HeaderAction::Close(pane))
        } else if spot.on_vsplit {
            Some(HeaderAction::SplitV(pane))
        } else if spot.on_hsplit {
            Some(HeaderAction::SplitH(pane))
        } else {
            Some(HeaderAction::Focus(pane))
        }
    }

    /// The edge or corner within `tolerance` of the pixel, corners first.
    pub fn edge_hit_test_geom(px: i64, py: i64, width: u32, height: u32, tolerance: u32) -> (r:
        Option<ResizeEdge>)
        ensures
            r == edge_at(px as int, py as int, width as int, height as int, tolerance as int),
    {
        let w: i64 = width as i64;
        let h: i64 = height as i64;
        let t: i64 = tolerance as i64;
        if px < 0 || py < 0 || px >= w || py >= h {
            return None;
        }
        let near_left = px < t;
        let near_right = px >= w - t;
        let near_top = py < t;
        let near_bottom = py >= h - t;
        match (near_top, near_bottom, near_left, near_right) {
            (true, _, true, _) => Some(ResizeEdge::NW),
            (true, _, _, true) => Some(ResizeEdge::NE),
            (_, true, true, _) => Some(ResizeEdge::SW),
            (_, true, _, true) => Some(ResizeEdge::SE),
            (true, _, _, _) => Some(ResizeEdge::N),
            (_, true, _, _) => Some(ResizeEdge::S),
            (_, _, true, _) => Some(ResizeEdge::W),
            (_, _, _, true) => Some(ResizeEdge::E),
            _ => None,
        }
    }

    /// The edge of this window at a pixel; none where the system draws the frame
    /// and has edges of its own.
    pub fn edge_resize_hit(&self, px: i64, py: i64) -> (r: Option<ResizeEdge>)
        ensures
            r == self.screen.edge(px, py),
    {
        self.screen.edge_of(px, py)
    }

    /// Starts to resize the window if the pixel is at an edge. `drag` asks the
    /// system for it and says whether it agreed.
    pub fn try_start_edge_resize<F>(&self, px: i64, py: i64, drag: F) -> (r: bool) where
        F: Fn(ResizeDirection) -> bool,

        requires
            forall|d: ResizeDirection| call_requires(drag, (d,)),
        ensures
            match self.screen.edge(px, py) {
                Some(e) if self.has_window => call_ensures(drag, (e.direction(),), r),
                _ => !r,
            },
    {
        let edge = match self.edge_resize_hit(px, py) {
            Some(e) => e,
            None => {
                return false;
            },
        };
        if !self.has_window {
            return false;
        }
        drag(edge.to_resize_direction())
    }

    /// The link in a cell of the screen.
    pub open spec fn link(&self, cell: PaneCell) -> Option<String> {
        if self.has_renderer && self.screen.hyperlinks@.dom().contains(cell) {
            Some(self.screen.hyperlinks@[cell])
        } else {
            None
        }
    }

    /// The hotspot in a cell of the screen.
    pub open spec fn hotspot(&self, cell: PaneCell) -> Option<HotspotMark> {
        if self.has_renderer && self.screen.hotspots@.dom().contains(cell) {
            Some(self.screen.hotspots@[cell])
        } else {
            None
        }
    }

    pub fn hyperlink_at(&self, pane_id: PaneId, row: usize, col: usize) -> (r: Option<String>)
        requires
            self.wf(),
        ensures
            r == self.link(PaneCell { pane: pane_id, row, col }),
    {
        if !self.has_renderer {
            return None;
        }
        match self.screen.hyperlinks.get(PaneCell { pane: pane_id, row, col }) {
            Some(url) => Some(url.clone()),
            None => None,
        }
    }

    pub fn has_hyperlink(&self, pane_id: PaneId, row: usize, col: usize) -> (r: bool)
        requires
            self.wf(),
        ensures
            r == self.link(PaneCell { pane: pane_id, row, col }) is Some,
    {
        self.has_renderer && self.screen.hyperlinks.contains_key(
            PaneCell { pane: pane_id, row, col },
        )
    }

    pub fn has_hotspot(&self, pane_id: PaneId, row: usize, col: usize) -> (r: bool)
        requires
            self.wf(),
        ensures
            r == self.hotspot(PaneCell { pane: pane_id, row, col }) is Some,
    {
        self.has_renderer && self.screen.hotspots.contains_key(PaneCell { pane: pane_id, row, col })
    }

    pub fn hotspot_at(&self, pane_id: PaneId, row: usize, col: usize) -> (r: Option<HotspotMark>)
        requires
            self.wf(),
        ensures
            r == self.hotspot(PaneCell { pane: pane_id, row, col }),
    {
        if !self.has_renderer {
            return None;
        }
        match self.screen.hotspots.get(PaneCell { pane: pane_id, row, col }) {
            Some(mark) => Some(HotspotMark { kind: mark.kind, text: mark.text.clone() }),
            None => None,
        }
    }

    /// The effect that gives the pointer new looks, if there are any and there is
    /// a window.
    pub open spec fn cursor_effects(&self, looks: Option<CursorIcon>) -> Seq<Effect> {
        match looks {
            Some(icon) if self.has_window => seq![Effect::SetCursor(icon)],
            _ => seq![],
        }
    }

    pub(crate) fn set_cursor(&mut self, looks: Option<CursorIcon>)
        ensures
            final(self).only_added(*old(self), old(self).cursor_effects(looks)),
    {
        if self.has_window {
            if let Some(icon) = looks {
                self.emit(Effect::SetCursor(icon));
                return;
            }
        }
        assert(self.effects@ =~= old(self).effects@ + Seq::<Effect>::empty());
    }

    /// `self` is `old` with another screen and with the effects `added` behind
    /// the others.
    pub open spec fn only_screen(self, old: App, screen: Screen, added: Seq<Effect>) -> bool {
        &&& self == (App { screen, effects: self.effects, ..old })
        &&& self.effects@ == old.effects@ + added
    }

    /// Gives the pointer its looks over a link or a hotspot, or takes them off.
    pub fn update_hyperlink_hover(&mut self, pane_id: PaneId, row: usize, col: usize)
        requires
            old(self).wf(),
        ensures
            final(self).wf(),
            ({
                let cell = PaneCell { pane: pane_id, row, col };
                let wanted = old(self).link(cell) is Some || old(self).hotspot(cell) is Some;
                final(self).only_screen(
                    *old(self),
                    old(self).screen.with_link_looks(wanted),
                    old(self).cursor_effects(old(self).screen.link_looks(wanted)),
                )
            }),
    {
        let on_link = self.has_hyperlink(pane_id, row, col);
        let on_hotspot = self.has_hotspot(pane_id, row, col);
        let looks = self.screen.hover_link(on_link, on_hotspot);
        self.set_cursor(looks);
    }

    /// Gives the pointer its looks over a separator, or takes them off. `hit` is
    /// the direction of the split whose separator is near.
    pub fn update_separator_hover(&mut self, hit: Option<SplitDirection>)
        ensures
            final(self).only_screen(
                *old(self),
                old(self).screen.with_separator_looks(hit is Some),
                old(self).cursor_effects(old(self).screen.separator_looks(hit)),
            ),
    {
        let looks = self.screen.hover_separator(hit);
        self.set_cursor(looks);
    }

    /// Gives the pointer its looks at an edge of the window, or takes them off.
    pub fn update_edge_hover(&mut self, px: i64, py: i64)
        ensures
            final(self).only_screen(
                *old(self),
                old(self).screen.with_edge_looks(old(self).screen.edge(px, py) is Some),
                old(self).cursor_effects(old(self).screen.edge_looks(px, py)),
            ),
    {
        let looks = self.screen.hover_edge(px, py);
        self.set_cursor(looks);
    }
}

} // verus!
