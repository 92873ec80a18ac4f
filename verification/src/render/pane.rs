//! What is drawn of one pane.
use super::cells;
use super::cells::{GridChar, RenderCell, TextHotspot};
use super::damage;
use super::damage::{LineDamage, Redraw};
use super::patterns;
use super::patterns::{PatternMatch, PatternWidgetMatch};
use super::rows;
use crate::layout::PaneId;
use vstd::prelude::*;

verus! {

/// What is known of a pane that is to be drawn.
#[derive(Debug, PartialEq, Eq)]
pub struct PaneFrame {
    pub pane_id: PaneId,
    /// How many panes the workspace has.
    pub pane_count: usize,
    pub show_pane_headers: bool,
    pub draw_focus_border: bool,
    pub screen_lines: usize,
    /// How many lines the pane is scrolled back.
    pub display_offset: usize,
    /// The lines that changed, if the terminal knows them.
    pub damage: Option<Vec<LineDamage>>,
    /// Whether what was kept of the last drawing is of the same view.
    pub cache_matches_viewport: bool,
    /// Whether the terminal runs in the daemon.
    pub is_remote: bool,
}

/// What is drawn of a pane.
#[derive(Debug, PartialEq, Eq)]
pub enum PanePicture {
    /// What was kept.
    Cached { header: bool, focus_border: bool },
    Drawn {
        header: bool,
        focus_border: bool,
        cells: Vec<RenderCell>,
        /// The rows to draw anew; all of them where they are not known.
        damaged_rows: Option<Vec<bool>>,
        /// The widgets that patterns ask for.
        widgets: Vec<PatternWidgetMatch>,
    },
}

/// What finds the links and hotspots of a pane.
pub struct Finders<U, H, T, M> {
    /// Marks the links in cells.
    pub urls: U,
    /// Finds hotspots in the texts of rows, given which rows go on with the line
    /// above.
    pub spots: H,
    /// Finds the tool calls of an agent, where its directory is known.
    pub calls: Option<T>,
    /// Finds patterns in the text of a row, where there are any.
    pub engine: Option<M>,
}

impl PaneFrame {
    /// A pane has a header where there are others.
    pub open spec fn has_header(&self) -> bool {
        self.pane_count > 1 && self.show_pane_headers
    }

    /// `rows` are the changed rows of the screen.
    pub open spec fn damages(&self, rows: Option<Seq<bool>>) -> bool {
        match (self.damage, rows) {
            (Some(lines), Some(rows)) => {
                &&& rows.len() == self.screen_lines
                &&& forall|row: int|
                    0 <= row < rows.len() ==> #[trigger] rows[row] == damage::is_damaged(
                        lines@,
                        row,
                    )
            },
            (None, None) => true,
            _ => false,
        }
    }

    fn damage_rows(&self) -> (r: Option<Vec<bool>>)
        ensures
            self.damages(
                match r {
                    Some(rows) => Some(rows@),
                    None => None,
                },
            ),
    {
        match &self.damage {
            Some(lines) => Some(damage::damage_rows(lines, self.screen_lines)),
            None => None,
        }
    }
}

/// The cells with their hotspots.
pub open spec fn marked(cells: Seq<RenderCell>, hotspots: Seq<TextHotspot>) -> Seq<RenderCell> {
    Seq::new(cells.len(), |i: int| cells::with_hotspot(cells[i], hotspots))
}

/// The cells with the links that `found` holds for their places.
pub open spec fn linked(cells: Seq<RenderCell>, found: Seq<RenderCell>) -> Seq<RenderCell> {
    Seq::new(cells.len(), |i: int| cells::with_link(cells[i], cells::links_in(found)))
}

/// `texts` are the texts of the rows of `cells`.
pub open spec fn are_texts(
    texts: Seq<String>,
    cells: Seq<RenderCell>,
    screen_lines: usize,
) -> bool {
    &&& texts.len() == screen_lines
    &&& forall|row: int|
        0 <= row < screen_lines ==> (#[trigger] texts[row])@ == rows::row_text(cells, row)
}

/// `wraps` says which rows of `cells` go on with the line above.
pub open spec fn are_wraps(wraps: Seq<bool>, cells: Seq<RenderCell>, screen_lines: usize) -> bool {
    &&& wraps.len() == screen_lines
    &&& forall|row: int|
        0 <= row < screen_lines ==> #[trigger] wraps[row] == (row > 0 && rows::row_wraps(
            cells,
            row - 1,
        ))
}

/// `hotspots` and `widgets` are what was found in the rows: first the hotspots of
/// the texts, then the tool calls, then the patterns.
pub open spec fn gathered<U, H, T, M>(
    pane_id: PaneId,
    finders: Finders<U, H, T, M>,
    texts: Vec<String>,
    wraps: Vec<bool>,
    hotspots: Seq<TextHotspot>,
    widgets: Seq<PatternWidgetMatch>,
) -> bool where
    H: Fn(&Vec<String>, &Vec<bool>) -> Vec<TextHotspot>,
    T: Fn(&Vec<String>) -> Vec<TextHotspot>,
    M: Fn(&str) -> Vec<PatternMatch>,
 {
    exists|spots: Vec<TextHotspot>, calls: Seq<TextHotspot>, matches: Seq<Vec<PatternMatch>>|
        {
            &&& #[trigger] call_ensures(finders.spots, (&texts, &wraps), spots)
            &&& #[trigger] called(finders.calls, texts, calls)
            &&& #[trigger] searched(finders.engine, texts@, matches)
            &&& hotspots == spots@ + calls + patterns::row_hotspots(
                texts@,
                matches,
                matches.len() as int,
            )
            &&& widgets == patterns::row_widgets(texts@, matches, pane_id, matches.len() as int)
        }
}

/// `calls` are the tool calls in the rows; none are looked for without a finder.
pub open spec fn called<T: Fn(&Vec<String>) -> Vec<TextHotspot>>(
    finder: Option<T>,
    texts: Vec<String>,
    calls: Seq<TextHotspot>,
) -> bool {
    match finder {
        Some(f) => exists|found: Vec<TextHotspot>| #[trigger]
            call_ensures(f, (&texts,), found) && calls == found@,
        None => calls.len() == 0,
    }
}

/// `matches` are those of the patterns in the rows; without patterns no row is
/// searched.
pub open spec fn searched<M: Fn(&str) -> Vec<PatternMatch>>(
    engine: Option<M>,
    texts: Seq<String>,
    matches: Seq<Vec<PatternMatch>>,
) -> bool {
    match engine {
        Some(e) => matches.len() == texts.len() && patterns::matched(e, texts, matches),
        None => matches.len() == 0,
    }
}

impl<U, H, T, M> Finders<U, H, T, M> where
    U: Fn(Vec<RenderCell>) -> Vec<RenderCell>,
    H: Fn(&Vec<String>, &Vec<bool>) -> Vec<TextHotspot>,
    T: Fn(&Vec<String>) -> Vec<TextHotspot>,
    M: Fn(&str) -> Vec<PatternMatch>,
 {
    /// The finders take everything.
    pub open spec fn total(&self) -> bool {
        &&& forall|c: Vec<RenderCell>| call_requires(self.urls, (c,))
        &&& forall|t: &Vec<String>, w: &Vec<bool>| call_requires(self.spots, (t, w))
        &&& self.calls matches Some(f) ==> forall|t: &Vec<String>| call_requires(f, (t,))
        &&& self.engine matches Some(e) ==> forall|s: &str| call_requires(e, (s,))
    }

    fn gather(&self, pane_id: PaneId, texts: &Vec<String>, wraps: &Vec<bool>) -> (r: (
        Vec<TextHotspot>,
        Vec<PatternWidgetMatch>,
    ))
        requires
            self.total(),
        ensures
            gathered(pane_id, *self, *texts, *wraps, r.0@, r.1@),
    {
        let mut hotspots = (self.spots)(texts, wraps);
        let ghost spots = hotspots;
        let ghost mut calls: Seq<TextHotspot> = Seq::empty();
        if let Some(f) = &self.calls {
            let mut found = f(texts);
            proof {
                calls = found@;
            }
            hotspots.append(&mut found);
        }
        assert(called(self.calls, *texts, calls));
        assert(hotspots@ =~= spots@ + calls);
        let mut widgets: Vec<PatternWidgetMatch> = Vec::new();
        let ghost mut matches: Seq<Vec<PatternMatch>> = Seq::empty();
        if let Some(e) = &self.engine {
            let ghost before = hotspots@;
            patterns::extend_hotspots_from_patterns(
                e,
                pane_id,
                texts,
                &mut hotspots,
                &mut widgets,
            );
            proof {
                matches = choose|m: Seq<Vec<PatternMatch>>|
                    {
                        &&& m.len() == texts@.len()
                        &&& #[trigger] patterns::matched(*e, texts@, m)
                        &&& hotspots@ == before + patterns::row_hotspots(
                            texts@,
                            m,
                            texts@.len() as int,
                        )
                        &&& widgets@ == Seq::<PatternWidgetMatch>::empty() + patterns::row_widgets(
                            texts@,
                            m,
                            pane_id,
                            texts@.len() as int,
                        )
                    };
            }
        }
        proof {
            let n = matches.len() as int;
            assert(searched(self.engine, texts@, matches));
            assert(hotspots@ =~= spots@ + calls + patterns::row_hotspots(texts@, matches, n));
            assert(widgets@ =~= patterns::row_widgets(texts@, matches, pane_id, n));
        }
        (hotspots, widgets)
    }
}

/// `out` are the cells of a pane that is drawn whole: links are looked for in
/// all cells, and hotspots in all texts.
pub open spec fn drawn_whole<U, H, T, M>(
    frame: &PaneFrame,
    grid: Seq<GridChar>,
    finders: Finders<U, H, T, M>,
    out: Seq<RenderCell>,
    widgets: Seq<PatternWidgetMatch>,
) -> bool where
    U: Fn(Vec<RenderCell>) -> Vec<RenderCell>,
    H: Fn(&Vec<String>, &Vec<bool>) -> Vec<TextHotspot>,
    T: Fn(&Vec<String>) -> Vec<TextHotspot>,
    M: Fn(&str) -> Vec<PatternMatch>,
 {
    exists|
        given: Vec<RenderCell>,
        found: Vec<RenderCell>,
        texts: Vec<String>,
        wraps: Vec<bool>,
        hotspots: Seq<TextHotspot>,
    |
        {
            &&& #[trigger] call_ensures(finders.urls, (given,), found)
            &&& #[trigger] gathered(frame.pane_id, finders, texts, wraps, hotspots, widgets)
            &&& given@ == cells::drawn_cells(grid, frame.display_offset, frame.screen_lines)
            &&& are_texts(texts@, found@, frame.screen_lines)
            &&& are_wraps(wraps@, found@, frame.screen_lines)
            &&& out == marked(found@, hotspots)
        }
}

/// `out` are the cells of a pane of which only the rows in `damage` changed:
/// links and hotspots are looked for there alone. Whether a line goes on is
/// seen from all cells, for the row above may not have changed.
pub open spec fn drawn_partly<U, H, T, M>(
    frame: &PaneFrame,
    grid: Seq<GridChar>,
    damage: Seq<bool>,
    finders: Finders<U, H, T, M>,
    out: Seq<RenderCell>,
    widgets: Seq<PatternWidgetMatch>,
) -> bool where
    U: Fn(Vec<RenderCell>) -> Vec<RenderCell>,
    H: Fn(&Vec<String>, &Vec<bool>) -> Vec<TextHotspot>,
    T: Fn(&Vec<String>) -> Vec<TextHotspot>,
    M: Fn(&str) -> Vec<PatternMatch>,
 {
    let all = cells::drawn_cells(grid, frame.display_offset, frame.screen_lines);
    exists|
        given: Vec<RenderCell>,
        found: Vec<RenderCell>,
        texts: Vec<String>,
        wraps: Vec<bool>,
        hotspots: Seq<TextHotspot>,
    |
        {
            &&& #[trigger] call_ensures(finders.urls, (given,), found)
            &&& #[trigger] gathered(frame.pane_id, finders, texts, wraps, hotspots, widgets)
            &&& given@ == cells::damaged_of(all, damage)
            &&& are_texts(texts@, found@, frame.screen_lines)
            &&& are_wraps(wraps@, all, frame.screen_lines)
            &&& out == marked(linked(all, found@), hotspots)
        }
}

fn draw_whole<U, H, T, M>(
    frame: &PaneFrame,
    grid: &Vec<GridChar>,
    finders: &Finders<U, H, T, M>,
) -> (r: (Vec<RenderCell>, Vec<PatternWidgetMatch>)) where
    U: Fn(Vec<RenderCell>) -> Vec<RenderCell>,
    H: Fn(&Vec<String>, &Vec<bool>) -> Vec<TextHotspot>,
    T: Fn(&Vec<String>) -> Vec<TextHotspot>,
    M: Fn(&str) -> Vec<PatternMatch>,

    requires
        finders.total(),
    ensures
        drawn_whole(frame, grid@, *finders, r.0@, r.1@),
{
    let given = cells::collect_cells(grid, frame.display_offset, frame.screen_lines);
    let ghost before = given;
    let mut out = (finders.urls)(given);
    let ghost found = out;
    let texts = rows::extract_row_text_from_cells(&out, frame.screen_lines);
    let wraps = rows::compute_wrap_continuation(&out, frame.screen_lines);
    let (hotspots, widgets) = finders.gather(frame.pane_id, &texts, &wraps);
    cells::apply_hotspots_to_cells(&mut out, &hotspots);
    proof {
        assert(out@ =~= marked(found@, hotspots@));
        assert(call_ensures(finders.urls, (before,), found));
        assert(gathered(frame.pane_id, *finders, texts, wraps, hotspots@, widgets@));
    }
    (out, widgets)
}

fn draw_partly<U, H, T, M>(
    frame: &PaneFrame,
    grid: &Vec<GridChar>,
    damage: &[bool],
    finders: &Finders<U, H, T, M>,
) -> (r: (Vec<RenderCell>, Vec<PatternWidgetMatch>)) where
    U: Fn(Vec<RenderCell>) -> Vec<RenderCell>,
    H: Fn(&Vec<String>, &Vec<bool>) -> Vec<TextHotspot>,
    T: Fn(&Vec<String>) -> Vec<TextHotspot>,
    M: Fn(&str) -> Vec<PatternMatch>,

    requires
        finders.total(),
    ensures
        drawn_partly(frame, grid@, damage@, *finders, r.0@, r.1@),
{
    let mut out = cells::collect_cells(grid, frame.display_offset, frame.screen_lines);
    let ghost all = out@;
    let given = cells::damaged_cells(&out, damage);
    let ghost before = given;
    let found = (finders.urls)(given);
    let texts = rows::extract_row_text_from_cells(&found, frame.screen_lines);
    let wraps = rows::compute_wrap_continuation(&out, frame.screen_lines);
    let (hotspots, widgets) = finders.gather(frame.pane_id, &texts, &wraps);
    let links = cells::collect_links(&found);
    cells::apply_links(&mut out, &links);
    assert(out@ =~= linked(all, found@));
    cells::apply_hotspots_to_cells(&mut out, &hotspots);
    proof {
        assert(out@ =~= marked(linked(all, found@), hotspots@));
        assert(call_ensures(finders.urls, (before,), found));
        assert(gathered(frame.pane_id, *finders, texts, wraps, hotspots@, widgets@));
    }
    (out, widgets)
}

/// What is drawn of a pane.
pub fn render_single_pane<U, H, T, M>(
    frame: &PaneFrame,
    grid: &Vec<GridChar>,
    finders: &Finders<U, H, T, M>,
) -> (r: PanePicture) where
    U: Fn(Vec<RenderCell>) -> Vec<RenderCell>,
    H: Fn(&Vec<String>, &Vec<bool>) -> Vec<TextHotspot>,
    T: Fn(&Vec<String>) -> Vec<TextHotspot>,
    M: Fn(&str) -> Vec<PatternMatch>,

    requires
        finders.total(),
    ensures
        exists|rows: Option<Seq<bool>>| #[trigger]
            frame.damages(rows) && match damage::redraw_of(rows, frame.cache_matches_viewport) {
                Redraw::Cached => r == (PanePicture::Cached {
                    header: frame.has_header(),
                    focus_border: frame.draw_focus_border,
                }),
                Redraw::Full => {
                    &&& r matches PanePicture::Drawn {
                        header,
                        focus_border,
                        cells,
                        damaged_rows,
                        widgets,
                    }
                    &&& header == frame.has_header()
                    &&& focus_border == frame.draw_focus_border
                    &&& damaged_rows is None
                    &&& drawn_whole(frame, grid@, *finders, cells@, widgets@)
                },
                Redraw::Partial => {
                    &&& r matches PanePicture::Drawn {
                        header,
                        focus_border,
                        cells,
                        damaged_rows,
                        widgets,
                    }
                    &&& header == frame.has_header()
                    &&& focus_border == frame.draw_focus_border
                    &&& damaged_rows matches Some(d) && d@ == rows->0
                    &&& drawn_partly(frame, grid@, rows->0, *finders, cells@, widgets@)
                },
            },
{
    let damaged = frame.damage_rows();
    let header = frame.pane_count > 1 && frame.show_pane_headers;
    let focus_border = frame.draw_focus_border;
    let ghost seen = match &damaged {
        Some(rows) => Some(rows@),
        None => None,
    };
    assert(frame.damages(seen));
    match damaged {
        None => {
            let plan = damage::plan_redraw(None, frame.cache_matches_viewport, frame.is_remote);
            assert(plan == Redraw::Full);
            let (cells, widgets) = draw_whole(frame, grid, finders);
            PanePicture::Drawn { header, focus_border, cells, damaged_rows: None, widgets }
        },
        Some(rows) => {
            match damage::plan_redraw(
                Some(rows.as_slice()),
                frame.cache_matches_viewport,
                frame.is_remote,
            ) {
                Redraw::Cached => PanePicture::Cached { header, focus_border },
                Redraw::Full => {
                    let (cells, widgets) = draw_whole(frame, grid, finders);
                    PanePicture::Drawn { header, focus_border, cells, damaged_rows: None, widgets }
                },
                Redraw::Partial => {
                    let (cells, widgets) = draw_partly(frame, grid, rows.as_slice(), finders);
                    PanePicture::Drawn {
                        header,
                        focus_border,
                        cells,
                        damaged_rows: Some(rows),
                        widgets,
                    }
                },
            }
        },
    }
}

} // verus!
