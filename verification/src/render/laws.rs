//! What holds of the drawing of panes as a whole.
use super::cells;
use super::cells::{CellHotspot, GridChar, HyperlinkSource, RenderCell, TextHotspot};
use super::damage;
use super::damage::{LineDamage, Redraw};
use super::pane;
use super::pane::{Finders, PaneFrame};
use super::patterns;
use super::patterns::{PatternAction, PatternMatch, PatternWidgetMatch};
use super::rows;
use super::tree;
use super::tree::DrawStep;
use crate::layout::{LayoutNode, PaneId, PaneState, Ratio, SplitDirection};
use crate::text;
use vstd::prelude::*;

verus! {

/// Whether a cell of the terminal is in the view, and not the second half of a wide
/// character.
pub open spec fn in_view(g: GridChar, offset: usize, screen_lines: usize) -> bool {
    0 <= g.line + offset < screen_lines && g.flags & 0x40u16 != 0x40u16
}

/// The cells that are drawn are those of the terminal that are in the view, each
/// once, in the order of the terminal. Each stands in the row that the scrolled view
/// gives its line, with its own column, character, marks and link, and without a
/// hotspot.
pub proof fn law_cells_of_the_view(grid: Seq<GridChar>, offset: usize, screen_lines: usize)
    requires
        grid.len() <= usize::MAX,
    ensures
        ({
            let drawn = cells::drawn_cells(grid, offset, screen_lines);
            &&& forall|k: int|
                0 <= k < drawn.len() ==> {
                    let g = grid[(#[trigger] drawn[k]).index as int];
                    &&& drawn[k].index < grid.len()
                    &&& in_view(g, offset, screen_lines)
                    &&& drawn[k].row == g.line + offset
                    &&& drawn[k].col == g.col
                    &&& drawn[k].c == g.c
                    &&& drawn[k].flags == g.flags
                    &&& drawn[k].hyperlink == g.hyperlink
                    &&& drawn[k].hyperlink_source == Some(HyperlinkSource::Osc8)
                        || g.hyperlink is None
                    &&& drawn[k].hyperlink_source is None || g.hyperlink is Some
                    &&& drawn[k].hotspot is None
                }
            &&& forall|j: int, k: int|
                0 <= j < k < drawn.len() ==> (#[trigger] drawn[j]).index < (
                #[trigger] drawn[k]).index
            &&& forall|i: int|
                0 <= i < grid.len() && in_view(#[trigger] grid[i], offset, screen_lines)
                    ==> exists|k: int|
                    0 <= k < drawn.len() && (#[trigger] drawn[k]).index == i
        }),
    decreases grid.len(),
{
    let drawn = cells::drawn_cells(grid, offset, screen_lines);
    if grid.len() > 0 {
        let init = grid.drop_last();
        let rest = cells::drawn_cells(init, offset, screen_lines);
        law_cells_of_the_view(init, offset, screen_lines);
        let last = cells::drawn_cell(grid.last(), grid.len() - 1, offset, screen_lines);
        assert forall|k: int| 0 <= k < rest.len() implies #[trigger] drawn[k] == rest[k] by {}
        assert forall|k: int| 0 <= k < rest.len() implies (#[trigger] rest[k]).index < init.len()
            && init[rest[k].index as int] == grid[rest[k].index as int] by {}
        assert forall|i: int|
            0 <= i < grid.len() && in_view(
                #[trigger] grid[i],
                offset,
                screen_lines,
            ) implies exists|k: int| 0 <= k < drawn.len() && (#[trigger] drawn[k]).index == i by {
            if i < init.len() {
                assert(init[i] == grid[i]);
                let k = choose|k: int| 0 <= k < rest.len() && (#[trigger] rest[k]).index == i;
                assert(drawn[k].index == i);
            } else {
                assert(drawn[rest.len() as int].index == i);
            }
        }
    }
}

/// Only the cells of changed rows are looked at, all of them, in their order.
pub proof fn law_cells_of_changed_rows(cells: Seq<RenderCell>, damage: Seq<bool>)
    ensures
        cells::damaged_of(cells, damage) == cells.filter(
            |c: RenderCell| (c.row as int) < damage.len() && damage[c.row as int],
        ),
    decreases cells.len(),
{
    reveal(Seq::filter);
    if cells.len() > 0 {
        law_cells_of_changed_rows(cells.drop_last(), damage);
    }
}

/// Whether the cell `k` of `found` is the last with a link at a place.
pub open spec fn links_place(found: Seq<RenderCell>, row: usize, col: usize, k: int) -> bool {
    &&& 0 <= k < found.len()
    &&& found[k].row == row
    &&& found[k].col == col
    &&& found[k].hyperlink is Some
    &&& forall|j: int|
        k < j < found.len() ==> (#[trigger] found[j]).row != row || found[j].col != col
            || found[j].hyperlink is None
}

/// A cell gets a link only from a found cell in the same row and column, the last of
/// several, and a cell for whose place no link was found stays as it is. Nothing but
/// the link changes.
pub proof fn law_links_in_their_place(cell: RenderCell, found: Seq<RenderCell>)
    ensures
        ({
            let r = cells::with_link(cell, cells::links_in(found));
            &&& forall|k: int|
                #![trigger found[k]]
                links_place(found, cell.row, cell.col, k) ==> {
                    &&& r.hyperlink == found[k].hyperlink
                    &&& r.hyperlink_source == (if found[k].hyperlink_source is Some {
                        found[k].hyperlink_source
                    } else {
                        Some(HyperlinkSource::Regex)
                    })
                }
            &&& (forall|k: int|
                0 <= k < found.len() ==> (#[trigger] found[k]).row != cell.row || found[k].col
                    != cell.col || found[k].hyperlink is None) ==> r == cell
            &&& r == (RenderCell {
                hyperlink: r.hyperlink,
                hyperlink_source: r.hyperlink_source,
                ..cell
            })
        }),
    decreases found.len(),
{
    let links = cells::links_in(found);
    let r = cells::with_link(cell, links);
    if found.len() > 0 {
        let init = found.drop_last();
        let rest = cells::links_in(init);
        law_links_in_their_place(cell, init);
        let last = found.last();
        if last.hyperlink is Some {
            assert(links.drop_last() =~= rest);
        }
        let here = last.row == cell.row && last.col == cell.col && last.hyperlink is Some;
        assert(found[found.len() - 1] == last);
        assert forall|k: int|
            #![trigger found[k]]
            links_place(found, cell.row, cell.col, k) implies {
            &&& r.hyperlink == found[k].hyperlink
            &&& r.hyperlink_source == (if found[k].hyperlink_source is Some {
                found[k].hyperlink_source
            } else {
                Some(HyperlinkSource::Regex)
            })
        } by {
            if k < init.len() {
                assert(!here);
                assert(init[k] == found[k]);
                assert forall|j: int| k < j < init.len() implies (#[trigger] init[j]).row
                    != cell.row || init[j].col != cell.col || init[j].hyperlink is None by {
                    assert(init[j] == found[j]);
                }
                assert(links_place(init, cell.row, cell.col, k));
            }
        }
        if forall|k: int|
            0 <= k < found.len() ==> (#[trigger] found[k]).row != cell.row || found[k].col
                != cell.col || found[k].hyperlink is None {
            assert forall|k: int| 0 <= k < init.len() implies (#[trigger] init[k]).row != cell.row
                || init[k].col != cell.col || init[k].hyperlink is None by {
                assert(init[k] == found[k]);
            }
        }
    }
}

/// Whether the hotspot `k` is the first that covers a place: in its row, from its
/// first column to the one before its end.
pub open spec fn marks_place(hotspots: Seq<TextHotspot>, row: usize, col: usize, k: int) -> bool {
    &&& 0 <= k < hotspots.len()
    &&& hotspots[k].row == row
    &&& hotspots[k].start_col <= col < hotspots[k].end_col
    &&& forall|j: int|
        0 <= j < k ==> (#[trigger] hotspots[j]).row != row || col < hotspots[j].start_col || col
            >= hotspots[j].end_col
}

/// A cell gets the hotspot of the first that covers its place, and one that none
/// covers stays as it is. Nothing but the hotspot changes.
pub proof fn law_hotspots_in_their_place(cell: RenderCell, hotspots: Seq<TextHotspot>)
    ensures
        ({
            let r = cells::with_hotspot(cell, hotspots);
            &&& forall|k: int|
                #![trigger hotspots[k]]
                marks_place(hotspots, cell.row, cell.col, k) ==> r.hotspot == Some(
                    CellHotspot {
                        kind: hotspots[k].kind,
                        text: hotspots[k].text,
                        is_dir: hotspots[k].is_dir,
                        resolved_text: hotspots[k].resolved_text,
                    },
                )
            &&& (forall|k: int|
                0 <= k < hotspots.len() ==> (#[trigger] hotspots[k]).row != cell.row || cell.col
                    < hotspots[k].start_col || cell.col >= hotspots[k].end_col) ==> r == cell
            &&& r == (RenderCell { hotspot: r.hotspot, ..cell })
        }),
    decreases hotspots.len(),
{
    let r = cells::with_hotspot(cell, hotspots);
    if hotspots.len() > 0 {
        let rest = hotspots.skip(1);
        law_hotspots_in_their_place(cell, rest);
        assert forall|k: int|
            #![trigger hotspots[k]]
            marks_place(hotspots, cell.row, cell.col, k) implies r.hotspot == Some(
            CellHotspot {
                kind: hotspots[k].kind,
                text: hotspots[k].text,
                is_dir: hotspots[k].is_dir,
                resolved_text: hotspots[k].resolved_text,
            },
        ) by {
            if k > 0 {
                assert(rest[k - 1] == hotspots[k]);
                assert(hotspots[0].row != cell.row || cell.col < hotspots[0].start_col || cell.col
                    >= hotspots[0].end_col);
                assert forall|j: int| 0 <= j < k - 1 implies (#[trigger] rest[j]).row != cell.row
                    || cell.col < rest[j].start_col || cell.col >= rest[j].end_col by {
                    assert(rest[j] == hotspots[j + 1]);
                }
                assert(marks_place(rest, cell.row, cell.col, k - 1));
            }
        }
        if forall|k: int|
            0 <= k < hotspots.len() ==> (#[trigger] hotspots[k]).row != cell.row || cell.col
                < hotspots[k].start_col || cell.col >= hotspots[k].end_col {
            assert(hotspots[0].row != cell.row || cell.col < hotspots[0].start_col || cell.col
                >= hotspots[0].end_col);
            assert forall|k: int| 0 <= k < rest.len() implies (#[trigger] rest[k]).row != cell.row
                || cell.col < rest[k].start_col || cell.col >= rest[k].end_col by {
                assert(rest[k] == hotspots[k + 1]);
            }
        }
    }
}

/// The text of a row ends with a cell of that row: nothing is added behind it.
pub proof fn law_row_text_ends_with_a_cell(cells: Seq<RenderCell>, row: int)
    ensures
        rows::row_text(cells, row).len() > 0 ==> exists|k: int|
            0 <= k < cells.len() && (#[trigger] cells[k]).row == row && cells[k].col + 1
                == rows::row_text(cells, row).len(),
    decreases cells.len(),
{
    if cells.len() > 0 {
        let init = cells.drop_last();
        law_row_text_ends_with_a_cell(init, row);
        assert(cells[cells.len() - 1] == cells.last());
        if rows::row_text(init, row).len() > 0 {
            let k = choose|k: int|
                0 <= k < init.len() && (#[trigger] init[k]).row == row && init[k].col + 1
                    == rows::row_text(init, row).len();
            assert(cells[k] == init[k]);
        }
    }
}

/// A line goes on below a row exactly if some cell of that row has the mark of a
/// wrapped line.
pub proof fn law_wrapped_rows(cells: Seq<RenderCell>, row: int)
    ensures
        rows::row_wraps(cells, row) <==> exists|k: int|
            0 <= k < cells.len() && (#[trigger] cells[k]).row == row && cells[k].flags & 0x10u16
                == 0x10u16,
{
    if rows::row_wraps(cells, row) {
        let k = choose|k: int|
            0 <= k < cells.len() && (#[trigger] cells[k]).row == row
                && crate::term_flags::cell_marked(
                cells[k].flags,
                crate::term_flags::CellFlag::WrapLine,
            );
        assert(cells[k].row == row && cells[k].flags & 0x10u16 == 0x10u16);
    }
}

proof fn lemma_columns_within(s: Seq<char>, byte: int)
    ensures
        byte <= 0 ==> rows::column_of(s, byte) == 0,
        s.len() > 0 && byte > text::byte_len(s.drop_last()) ==> rows::column_of(s, byte)
            == s.len(),
    decreases s.len(),
{
    if s.len() > 0 {
        let init = s.drop_last();
        lemma_columns_within(init, byte);
        if init.len() > 0 {
            assert(init =~= init.drop_last().push(init.last()));
            text::lemma_byte_len_push(init.drop_last(), init.last());
        }
    }
}

/// A byte behind the start of a character, up to its end, has the column behind that
/// character, and a byte behind the text stands for itself.
pub proof fn law_column_within_character(s: Seq<char>, k: int, byte: int)
    requires
        0 <= k < s.len(),
        text::byte_len(s.take(k)) < byte <= text::byte_len(s.take(k + 1)),
    ensures
        rows::column_of(s, byte) == k + 1,
        rows::column_or_byte(s, byte) == k + 1,
        forall|b: int| b > text::byte_len(s) ==> #[trigger] rows::column_or_byte(s, b) == b,
    decreases s.len(),
{
    let init = s.drop_last();
    assert(s =~= init.push(s.last()));
    text::lemma_byte_len_push(init, s.last());
    if k == s.len() - 1 {
        assert(s.take(k) =~= init);
        assert(s.take(k + 1) =~= s);
        lemma_columns_within(s, byte);
    } else {
        assert(s.take(k) =~= init.take(k));
        assert(s.take(k + 1) =~= init.take(k + 1));
        law_column_within_character(init, k, byte);
        text::lemma_byte_len_take_monotonic(init, k + 1, init.len() as int);
        assert(init.take(init.len() as int) =~= init);
    }
}

/// Of the matches of patterns in a row, those that ask for a hotspot become one each,
/// in their order, from the column of their first byte to that of their end.
pub proof fn law_matches_become_hotspots(matches: Seq<PatternMatch>, row: usize, s: Seq<char>)
    ensures
        ({
            let wanted = matches.filter(|m: PatternMatch| m.action is Hotspot);
            let given = patterns::hotspots_of(matches, row, s);
            &&& given.len() == wanted.len()
            &&& forall|k: int|
                0 <= k < given.len() ==> {
                    &&& (#[trigger] given[k]).row == row
                    &&& given[k].start_col == rows::column_or_byte(
                        s,
                        wanted[k].byte_start as int,
                    ) as usize
                    &&& given[k].end_col == rows::column_or_byte(
                        s,
                        wanted[k].byte_end as int,
                    ) as usize
                    &&& wanted[k].action == (PatternAction::Hotspot {
                        kind: given[k].kind,
                        text: given[k].text,
                    })
                    &&& !given[k].is_dir
                    &&& given[k].resolved_text is None
                }
        }),
    decreases matches.len(),
{
    reveal(Seq::filter);
    if matches.len() > 0 {
        law_matches_become_hotspots(matches.drop_last(), row, s);
    }
}

/// Of the matches of patterns in a row, those that ask for a widget become one each,
/// in their order, from the column of their first byte to that of their end.
pub proof fn law_matches_become_widgets(
    matches: Seq<PatternMatch>,
    pane_id: PaneId,
    row: usize,
    s: Seq<char>,
)
    ensures
        ({
            let wanted = matches.filter(|m: PatternMatch| m.action is Widget);
            let given = patterns::widgets_of(matches, pane_id, row, s);
            &&& given.len() == wanted.len()
            &&& forall|k: int|
                0 <= k < given.len() ==> {
                    &&& (#[trigger] given[k]).row == row
                    &&& given[k].pane_id == pane_id
                    &&& given[k].start_col == rows::column_or_byte(
                        s,
                        wanted[k].byte_start as int,
                    ) as usize
                    &&& given[k].end_col == rows::column_or_byte(
                        s,
                        wanted[k].byte_end as int,
                    ) as usize
                    &&& wanted[k].action == PatternAction::Widget(given[k].widget)
                }
        }),
    decreases matches.len(),
{
    reveal(Seq::filter);
    if matches.len() > 0 {
        law_matches_become_widgets(matches.drop_last(), pane_id, row, s);
    }
}

proof fn lemma_all_or_none<A>(s: Seq<A>, pred: spec_fn(A) -> bool, all: bool)
    requires
        forall|i: int| 0 <= i < s.len() ==> pred(#[trigger] s[i]) == all,
    ensures
        s.filter(pred) == (if all {
            s
        } else {
            Seq::<A>::empty()
        }),
    decreases s.len(),
{
    reveal(Seq::filter);
    if s.len() > 0 {
        let init = s.drop_last();
        assert forall|i: int| 0 <= i < init.len() implies pred(#[trigger] init[i]) == all by {
            assert(init[i] == s[i]);
        }
        lemma_all_or_none(init, pred, all);
        assert(s[s.len() - 1] == s.last());
        assert(s =~= init.push(s.last()));
    }
}

/// What the rows give together has, for each row, exactly what that row gives;
/// nothing for an empty row; and upper rows come first.
pub proof fn law_rows_give_their_own(
    texts: Seq<String>,
    matches: Seq<Vec<PatternMatch>>,
    pane_id: PaneId,
    n: int,
    row: int,
)
    requires
        0 <= row < n <= texts.len(),
        n <= usize::MAX,
    ensures
        patterns::row_hotspots(texts, matches, n).filter(|h: TextHotspot| h.row == row) == (
        if texts[row]@.len() == 0 {
            Seq::empty()
        } else {
            patterns::hotspots_of(matches[row]@, row as usize, texts[row]@)
        }),
        patterns::row_widgets(texts, matches, pane_id, n).filter(
            |w: PatternWidgetMatch| w.row == row,
        ) == (if texts[row]@.len() == 0 {
            Seq::empty()
        } else {
            patterns::widgets_of(matches[row]@, pane_id, row as usize, texts[row]@)
        }),
        forall|i: int|
            0 <= i < patterns::row_hotspots(texts, matches, n).len() ==> (
            #[trigger] patterns::row_hotspots(texts, matches, n)[i]).row < n,
        forall|i: int|
            0 <= i < patterns::row_widgets(texts, matches, pane_id, n).len() ==> (
            #[trigger] patterns::row_widgets(texts, matches, pane_id, n)[i]).row < n,
        forall|i: int, j: int|
            0 <= i < j < patterns::row_hotspots(texts, matches, n).len() ==> (
            #[trigger] patterns::row_hotspots(texts, matches, n)[i]).row <= (
            #[trigger] patterns::row_hotspots(texts, matches, n)[j]).row,
        forall|i: int, j: int|
            0 <= i < j < patterns::row_widgets(texts, matches, pane_id, n).len() ==> (
            #[trigger] patterns::row_widgets(texts, matches, pane_id, n)[i]).row <= (
            #[trigger] patterns::row_widgets(texts, matches, pane_id, n)[j]).row,
    decreases n,
{
    let here_h = |h: TextHotspot| h.row == row;
    let here_w = |w: PatternWidgetMatch| w.row == row;
    let last = n - 1;
    let hs = patterns::row_hotspots(texts, matches, n);
    let ws = patterns::row_widgets(texts, matches, pane_id, n);
    let more_h = if texts[last]@.len() == 0 {
        Seq::<TextHotspot>::empty()
    } else {
        patterns::hotspots_of(matches[last]@, last as usize, texts[last]@)
    };
    let more_w = if texts[last]@.len() == 0 {
        Seq::<PatternWidgetMatch>::empty()
    } else {
        patterns::widgets_of(matches[last]@, pane_id, last as usize, texts[last]@)
    };
    let prev_h = patterns::row_hotspots(texts, matches, n - 1);
    let prev_w = patterns::row_widgets(texts, matches, pane_id, n - 1);
    law_matches_become_hotspots(matches[last]@, last as usize, texts[last]@);
    law_matches_become_widgets(matches[last]@, pane_id, last as usize, texts[last]@);
    assert(hs =~= prev_h + more_h);
    assert(ws =~= prev_w + more_w);
    Seq::filter_distributes_over_add(prev_h, more_h, here_h);
    Seq::filter_distributes_over_add(prev_w, more_w, here_w);
    assert forall|i: int| 0 <= i < more_h.len() implies here_h(#[trigger] more_h[i]) == (row
        == last) by {}
    assert forall|i: int| 0 <= i < more_w.len() implies here_w(#[trigger] more_w[i]) == (row
        == last) by {}
    lemma_all_or_none(more_h, here_h, row == last);
    lemma_all_or_none(more_w, here_w, row == last);
    if n > 1 {
        let earlier = if row < last {
            row
        } else {
            0
        };
        law_rows_give_their_own(texts, matches, pane_id, n - 1, earlier);
    }
    if row == last {
        assert forall|i: int| 0 <= i < prev_h.len() implies here_h(#[trigger] prev_h[i])
            == false by {}
        assert forall|i: int| 0 <= i < prev_w.len() implies here_w(#[trigger] prev_w[i])
            == false by {}
        lemma_all_or_none(prev_h, here_h, false);
        lemma_all_or_none(prev_w, here_w, false);
    }
    assert(hs.filter(here_h) =~= prev_h.filter(here_h) + more_h.filter(here_h));
    assert(ws.filter(here_w) =~= prev_w.filter(here_w) + more_w.filter(here_w));
}

/// A row of the screen counts as changed exactly if the terminal says so of its line.
pub proof fn law_changed_rows(frame: PaneFrame, rows: Seq<bool>, lines: Vec<LineDamage>, row: int)
    requires
        frame.damage == Some(lines),
        frame.damages(Some(rows)),
        0 <= row < frame.screen_lines,
    ensures
        rows.len() == frame.screen_lines,
        rows[row] <==> exists|k: int|
            0 <= k < lines@.len() && (#[trigger] lines@[k]).line == row && lines@[k].damaged,
        !frame.damages(None),
{
    assert(rows[row] == damage::is_damaged(lines@, row));
    if rows[row] {
        let k = choose|k: int|
            0 <= k < lines@.len() && (#[trigger] lines@[k]).damaged && lines@[k].line == row;
        assert(lines@[k].line == row && lines@[k].damaged);
    }
}

/// Only the changed rows are looked at exactly if what was kept still fits, the
/// changes are known and there are some; everything is, exactly if what was kept does
/// not fit or the changes are not known.
pub proof fn law_how_much_is_drawn(rows: Option<Seq<bool>>, cache_matches: bool)
    ensures
        damage::redraw_of(rows, cache_matches) == Redraw::Partial <==> cache_matches && rows is Some
            && exists|k: int| 0 <= k < rows->0.len() && #[trigger] rows->0[k],
        damage::redraw_of(rows, cache_matches) == Redraw::Full <==> !cache_matches || rows is None,
{
}

/// A pane has a header exactly if headers are shown and there are other panes.
pub proof fn law_header_only_among_others(frame: PaneFrame)
    ensures
        frame.has_header() <==> frame.show_pane_headers && frame.pane_count >= 2,
{
}

/// What the texts give comes before the tool calls, and those before the patterns, so
/// that of several at one place an earlier one counts. What is not looked for gives
/// nothing.
pub proof fn law_finders_come_in_order<U, H, T, M>(
    pane_id: PaneId,
    finders: Finders<U, H, T, M>,
    texts: Vec<String>,
    wraps: Vec<bool>,
    hotspots: Seq<TextHotspot>,
    widgets: Seq<PatternWidgetMatch>,
) where
    H: Fn(&Vec<String>, &Vec<bool>) -> Vec<TextHotspot>,
    T: Fn(&Vec<String>) -> Vec<TextHotspot>,
    M: Fn(&str) -> Vec<PatternMatch>,

    requires
        pane::gathered(pane_id, finders, texts, wraps, hotspots, widgets),
    ensures
        exists|spots: Vec<TextHotspot>, calls: Seq<TextHotspot>|
            {
                &&& #[trigger] call_ensures(finders.spots, (&texts, &wraps), spots)
                &&& #[trigger] (spots@ + calls).is_prefix_of(hotspots)
                &&& finders.calls is None ==> calls.len() == 0
                &&& finders.calls matches Some(f) ==> exists|found: Vec<TextHotspot>| #[trigger]
                    call_ensures(f, (&texts,), found) && calls == found@
                &&& finders.engine is None ==> hotspots == spots@ + calls && widgets.len() == 0
                &&& finders.engine matches Some(e) ==> exists|matches: Seq<Vec<PatternMatch>>|
                    {
                        &&& matches.len() == texts@.len()
                        &&& #[trigger] patterns::matched(e, texts@, matches)
                        &&& hotspots == spots@ + calls + patterns::row_hotspots(
                            texts@,
                            matches,
                            texts@.len() as int,
                        )
                        &&& widgets == patterns::row_widgets(
                            texts@,
                            matches,
                            pane_id,
                            texts@.len() as int,
                        )
                    }
            },
{
    let (spots, calls, matches) = choose|
        spots: Vec<TextHotspot>,
        calls: Seq<TextHotspot>,
        matches: Seq<Vec<PatternMatch>>,
    |
        {
            &&& #[trigger] call_ensures(finders.spots, (&texts, &wraps), spots)
            &&& #[trigger] pane::called(finders.calls, texts, calls)
            &&& #[trigger] pane::searched(finders.engine, texts@, matches)
            &&& hotspots == spots@ + calls + patterns::row_hotspots(
                texts@,
                matches,
                matches.len() as int,
            )
            &&& widgets == patterns::row_widgets(texts@, matches, pane_id, matches.len() as int)
        };
    assert((spots@ + calls).is_prefix_of(hotspots)) by {
        assert(spots@ + calls =~= hotspots.take((spots@ + calls).len() as int));
    }
    if finders.engine is None {
        assert(hotspots =~= spots@ + calls);
    } else {
        let e = finders.engine->0;
        assert(patterns::matched(e, texts@, matches));
    }
}

/// Where only some rows changed, links are looked for in the cells of those rows
/// alone, and hotspots in their texts; whether a line goes on is seen from all cells.
/// Every cell of the view is drawn, with its own place, character and marks; one for
/// whose place no link was found keeps what it had.
pub proof fn law_changed_rows_are_looked_at<U, H, T, M>(
    frame: &PaneFrame,
    grid: Seq<GridChar>,
    changed: Seq<bool>,
    finders: Finders<U, H, T, M>,
    out: Seq<RenderCell>,
    widgets: Seq<PatternWidgetMatch>,
) where
    U: Fn(Vec<RenderCell>) -> Vec<RenderCell>,
    H: Fn(&Vec<String>, &Vec<bool>) -> Vec<TextHotspot>,
    T: Fn(&Vec<String>) -> Vec<TextHotspot>,
    M: Fn(&str) -> Vec<PatternMatch>,

    requires
        pane::drawn_partly(frame, grid, changed, finders, out, widgets),
    ensures
        ({
            let all = cells::drawn_cells(grid, frame.display_offset, frame.screen_lines);
            exists|
                given: Vec<RenderCell>,
                found: Vec<RenderCell>,
                texts: Vec<String>,
                wraps: Vec<bool>,
                hotspots: Seq<TextHotspot>,
            |
                {
                    &&& #[trigger] call_ensures(finders.urls, (given,), found)
                    &&& #[trigger] pane::gathered(
                        frame.pane_id,
                        finders,
                        texts,
                        wraps,
                        hotspots,
                        widgets,
                    )
                    &&& given@ == all.filter(
                        |c: RenderCell| (c.row as int) < changed.len() && changed[c.row as int],
                    )
                    &&& texts@.len() == frame.screen_lines
                    &&& wraps@.len() == frame.screen_lines
                    &&& forall|row: int|
                        0 <= row < frame.screen_lines ==> (#[trigger] texts@[row])@
                            == rows::row_text(found@, row)
                    &&& forall|row: int|
                        0 <= row < frame.screen_lines ==> (#[trigger] wraps@[row] <==> row > 0
                            && exists|k: int|
                            0 <= k < all.len() && (#[trigger] all[k]).row == row - 1 && all[k].flags
                                & 0x10u16 == 0x10u16)
                    &&& out.len() == all.len()
                    &&& forall|i: int|
                        0 <= i < out.len() ==> {
                            let linked = cells::with_link(all[i], cells::links_in(found@));
                            &&& (#[trigger] out[i]).row == all[i].row
                            &&& out[i].col == all[i].col
                            &&& out[i].c == all[i].c
                            &&& out[i].flags == all[i].flags
                            &&& out[i].index == all[i].index
                            &&& out[i].hyperlink == linked.hyperlink
                            &&& out[i].hyperlink_source == linked.hyperlink_source
                            &&& out[i].hotspot == cells::with_hotspot(linked, hotspots).hotspot
                        }
                }
        }),
{
    let all = cells::drawn_cells(grid, frame.display_offset, frame.screen_lines);
    let (given, found, texts, wraps, hotspots) = choose|
        given: Vec<RenderCell>,
        found: Vec<RenderCell>,
        texts: Vec<String>,
        wraps: Vec<bool>,
        hotspots: Seq<TextHotspot>,
    |
        {
            &&& #[trigger] call_ensures(finders.urls, (given,), found)
            &&& #[trigger] pane::gathered(frame.pane_id, finders, texts, wraps, hotspots, widgets)
            &&& given@ == cells::damaged_of(all, changed)
            &&& pane::are_texts(texts@, found@, frame.screen_lines)
            &&& pane::are_wraps(wraps@, all, frame.screen_lines)
            &&& out == pane::marked(pane::linked(all, found@), hotspots)
        };
    law_cells_of_changed_rows(all, changed);
    assert forall|row: int| 0 <= row < frame.screen_lines implies (#[trigger] wraps@[row] <==> row
        > 0 && exists|k: int|
        0 <= k < all.len() && (#[trigger] all[k]).row == row - 1 && all[k].flags & 0x10u16
            == 0x10u16) by {
        law_wrapped_rows(all, row - 1);
    }
    assert(call_ensures(finders.urls, (given,), found));
    assert(pane::gathered(frame.pane_id, finders, texts, wraps, hotspots, widgets));
}

/// Where a pane is drawn whole, links are looked for in all cells of the view, and
/// hotspots in the texts of what the search for links gave back, which is drawn with
/// the hotspots on it.
pub proof fn law_all_rows_are_looked_at<U, H, T, M>(
    frame: &PaneFrame,
    grid: Seq<GridChar>,
    finders: Finders<U, H, T, M>,
    out: Seq<RenderCell>,
    widgets: Seq<PatternWidgetMatch>,
) where
    U: Fn(Vec<RenderCell>) -> Vec<RenderCell>,
    H: Fn(&Vec<String>, &Vec<bool>) -> Vec<TextHotspot>,
    T: Fn(&Vec<String>) -> Vec<TextHotspot>,
    M: Fn(&str) -> Vec<PatternMatch>,

    requires
        pane::drawn_whole(frame, grid, finders, out, widgets),
    ensures
        exists|
            given: Vec<RenderCell>,
            found: Vec<RenderCell>,
            texts: Vec<String>,
            wraps: Vec<bool>,
            hotspots: Seq<TextHotspot>,
        |
            {
                &&& #[trigger] call_ensures(finders.urls, (given,), found)
                &&& #[trigger] pane::gathered(
                    frame.pane_id,
                    finders,
                    texts,
                    wraps,
                    hotspots,
                    widgets,
                )
                &&& given@ == cells::drawn_cells(grid, frame.display_offset, frame.screen_lines)
                &&& texts@.len() == frame.screen_lines
                &&& wraps@.len() == frame.screen_lines
                &&& forall|row: int|
                    0 <= row < frame.screen_lines ==> (#[trigger] texts@[row])@ == rows::row_text(
                        found@,
                        row,
                    )
                &&& forall|row: int|
                    0 <= row < frame.screen_lines ==> (#[trigger] wraps@[row] <==> row > 0
                        && exists|k: int|
                        0 <= k < found@.len() && (#[trigger] found@[k]).row == row - 1
                            && found@[k].flags & 0x10u16 == 0x10u16)
                &&& out.len() == found@.len()
                &&& forall|i: int|
                    0 <= i < out.len() ==> {
                        &&& (#[trigger] out[i]).row == found@[i].row
                        &&& out[i].col == found@[i].col
                        &&& out[i].c == found@[i].c
                        &&& out[i].flags == found@[i].flags
                        &&& out[i].index == found@[i].index
                        &&& out[i].hyperlink == found@[i].hyperlink
                        &&& out[i].hyperlink_source == found@[i].hyperlink_source
                        &&& out[i].hotspot == cells::with_hotspot(found@[i], hotspots).hotspot
                    }
            },
{
    let (given, found, texts, wraps, hotspots) = choose|
        given: Vec<RenderCell>,
        found: Vec<RenderCell>,
        texts: Vec<String>,
        wraps: Vec<bool>,
        hotspots: Seq<TextHotspot>,
    |
        {
            &&& #[trigger] call_ensures(finders.urls, (given,), found)
            &&& #[trigger] pane::gathered(frame.pane_id, finders, texts, wraps, hotspots, widgets)
            &&& given@ == cells::drawn_cells(grid, frame.display_offset, frame.screen_lines)
            &&& pane::are_texts(texts@, found@, frame.screen_lines)
            &&& pane::are_wraps(wraps@, found@, frame.screen_lines)
            &&& out == pane::marked(found@, hotspots)
        };
    assert forall|row: int| 0 <= row < frame.screen_lines implies (#[trigger] wraps@[row] <==> row
        > 0 && exists|k: int|
        0 <= k < found@.len() && (#[trigger] found@[k]).row == row - 1 && found@[k].flags & 0x10u16
            == 0x10u16) by {
        law_wrapped_rows(found@, row - 1);
    }
    assert(call_ensures(finders.urls, (given,), found));
    assert(pane::gathered(frame.pane_id, finders, texts, wraps, hotspots, widgets));
}

/// A row is searched for patterns as its own text reads, and only one that holds
/// something.
pub proof fn law_rows_are_searched<M: Fn(&str) -> Vec<PatternMatch>>(
    engine: M,
    texts: Seq<String>,
    matches: Seq<Vec<PatternMatch>>,
    row: int,
)
    requires
        patterns::matched(engine, texts, matches),
        0 <= row < matches.len(),
        texts[row]@.len() > 0,
    ensures
        exists|s: &str|
            s@ == texts[row]@ && #[trigger] call_ensures(engine, (s,), matches[row]),
{
    assert(patterns::finds(engine, texts[row]@, matches[row]));
}

/// Only the focused pane has a border, and only where borders are shown.
pub proof fn law_border_around_the_focused(
    node: LayoutNode,
    focused: Option<PaneId>,
    show_focus: bool,
    k: int,
)
    requires
        0 <= k < tree::steps_of(node, focused, show_focus).len(),
    ensures
        match tree::steps_of(node, focused, show_focus)[k] {
            DrawStep::Pane { id, focus_border } => focus_border <==> show_focus && focused == Some(
                id,
            ),
            DrawStep::Separator { .. } => true,
        },
    decreases node,
{
    if let LayoutNode::Split { first, second, .. } = node {
        let a = tree::steps_of(*first, focused, show_focus);
        let b = tree::steps_of(*second, focused, show_focus);
        let all = tree::steps_of(node, focused, show_focus);
        if k < a.len() {
            law_border_around_the_focused(*first, focused, show_focus, k);
            assert(all[k] == a[k]);
        } else if k < a.len() + b.len() {
            law_border_around_the_focused(*second, focused, show_focus, k - a.len());
            assert(all[k] == b[k - a.len()]);
        }
    }
}

/// Two halves are drawn as they would be alone, the first one first, and behind them
/// the line of their own split; a pane alone is drawn without a line.
pub proof fn law_line_behind_the_halves(
    direction: SplitDirection,
    ratio: Ratio,
    first: LayoutNode,
    second: LayoutNode,
    pane: PaneState,
    focused: Option<PaneId>,
    show_focus: bool,
)
    ensures
        ({
            let halves = LayoutNode::Split {
                direction,
                ratio,
                first: Box::new(first),
                second: Box::new(second),
            };
            let all = tree::steps_of(halves, focused, show_focus);
            let a = tree::steps_of(first, focused, show_focus);
            let b = tree::steps_of(second, focused, show_focus);
            &&& all.len() == a.len() + b.len() + 1
            &&& all.take(a.len() as int) == a
            &&& all.subrange(a.len() as int, (a.len() + b.len()) as int) == b
            &&& all.last() == DrawStep::Separator { direction }
        }),
        tree::steps_of(LayoutNode::Leaf(pane), focused, show_focus).len() == 1,
        tree::steps_of(LayoutNode::Empty, focused, show_focus).len() == 0,
{
    let halves = LayoutNode::Split {
        direction,
        ratio,
        first: Box::new(first),
        second: Box::new(second),
    };
    let all = tree::steps_of(halves, focused, show_focus);
    let a = tree::steps_of(first, focused, show_focus);
    let b = tree::steps_of(second, focused, show_focus);
    assert(all.take(a.len() as int) =~= a);
    assert(all.subrange(a.len() as int, (a.len() + b.len()) as int) =~= b);
}

/// Rows without text are not searched: whatever stands for them, no finder was asked.
pub proof fn law_empty_rows_are_not_searched<M: Fn(&str) -> Vec<PatternMatch>>(
    engine: M,
    texts: Seq<String>,
    matches: Seq<Vec<PatternMatch>>,
)
    requires
        matches.len() <= texts.len(),
        forall|row: int| 0 <= row < texts.len() ==> (#[trigger] texts[row])@.len() == 0,
    ensures
        patterns::matched(engine, texts, matches),
{
    assert forall|row: int|
        #![trigger matches[row]]
        0 <= row < matches.len() && texts[row]@.len() > 0 implies patterns::finds(
        engine,
        texts[row]@,
        matches[row],
    ) by {
        assert(texts[row]@.len() == 0);
    }
}

/// A pane alone is one step of the drawing.
pub proof fn law_pane_alone_is_drawn(pane: PaneState, focused: Option<PaneId>, show_focus: bool)
    ensures
        tree::steps_of(LayoutNode::Leaf(pane), focused, show_focus) == seq![
            DrawStep::Pane { id: pane.id, focus_border: show_focus && focused == Some(pane.id) },
        ],
{
}

} // verus!
