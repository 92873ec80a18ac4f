//! Hotspots and widgets from patterns in the text.
use super::cells::TextHotspot;
use super::rows;
use crate::hotspot::HotspotKind;
use crate::layout::PaneId;
use vstd::prelude::*;

verus! {

/// What is to be done with a match of a pattern.
#[derive(Debug, PartialEq, Eq)]
pub enum PatternAction {
    /// Make it a hotspot.
    Hotspot { kind: HotspotKind, text: String },
    /// Draw the widget with this number over it.
    Widget(u64),
    Other,
}

/// A match of a pattern in a row, from one byte to another.
#[derive(Debug, PartialEq, Eq)]
pub struct PatternMatch {
    pub byte_start: usize,
    pub byte_end: usize,
    pub action: PatternAction,
}

/// A widget over a part of a row.
#[derive(Debug, Clone, Copy, PartialEq, Eq, Structural)]
pub struct PatternWidgetMatch {
    pub pane_id: PaneId,
    pub row: usize,
    pub start_col: usize,
    pub end_col: usize,
    pub widget: u64,
}

/// The hotspot of a match in row `row`, whose text is `s`.
pub open spec fn hotspot_of(m: PatternMatch, row: usize, s: Seq<char>) -> Option<TextHotspot> {
    match m.action {
        PatternAction::Hotspot { kind, text } => Some(
            TextHotspot {
                row,
                start_col: rows::column_or_byte(s, m.byte_start as int) as usize,
                end_col: rows::column_or_byte(s, m.byte_end as int) as usize,
                kind,
                text,
                is_dir: false,
                resolved_text: None,
            },
        ),
        _ => None,
    }
}

/// The widget of a match in row `row`, whose text is `s`.
pub open spec fn widget_of(m: PatternMatch, pane_id: PaneId, row: usize, s: Seq<char>) -> Option<
    PatternWidgetMatch,
> {
    match m.action {
        PatternAction::Widget(widget) => Some(
            PatternWidgetMatch {
                pane_id,
                row,
                start_col: rows::column_or_byte(s, m.byte_start as int) as usize,
                end_col: rows::column_or_byte(s, m.byte_end as int) as usize,
                widget,
            },
        ),
        _ => None,
    }
}

pub open spec fn hotspots_of(matches: Seq<PatternMatch>, row: usize, s: Seq<char>) -> Seq<
    TextHotspot,
>
    decreases matches.len(),
{
    if matches.len() == 0 {
        seq![]
    } else {
        let rest = hotspots_of(matches.drop_last(), row, s);
        match hotspot_of(matches.last(), row, s) {
            Some(h) => rest.push(h),
            None => rest,
        }
    }
}

pub open spec fn widgets_of(
    matches: Seq<PatternMatch>,
    pane_id: PaneId,
    row: usize,
    s: Seq<char>,
) -> Seq<PatternWidgetMatch>
    decreases matches.len(),
{
    if matches.len() == 0 {
        seq![]
    } else {
        let rest = widgets_of(matches.drop_last(), pane_id, row, s);
        match widget_of(matches.last(), pane_id, row, s) {
            Some(w) => rest.push(w),
            None => rest,
        }
    }
}

/// What the first `n` rows give: nothing for an empty one.
pub open spec fn row_hotspots(texts: Seq<String>, matches: Seq<Vec<PatternMatch>>, n: int) -> Seq<
    TextHotspot,
>
    decreases n,
{
    if n <= 0 {
        seq![]
    } else {
        let rest = row_hotspots(texts, matches, n - 1);
        if texts[n - 1]@.len() == 0 {
            rest
        } else {
            rest + hotspots_of(matches[n - 1]@, (n - 1) as usize, texts[n - 1]@)
        }
    }
}

pub open spec fn row_widgets(
    texts: Seq<String>,
    matches: Seq<Vec<PatternMatch>>,
    pane_id: PaneId,
    n: int,
) -> Seq<PatternWidgetMatch>
    decreases n,
{
    if n <= 0 {
        seq![]
    } else {
        let rest = row_widgets(texts, matches, pane_id, n - 1);
        if texts[n - 1]@.len() == 0 {
            rest
        } else {
            rest + widgets_of(matches[n - 1]@, pane_id, (n - 1) as usize, texts[n - 1]@)
        }
    }
}

/// Adds what the matches of one row give.
fn extend_row(
    matches: &Vec<PatternMatch>,
    pane_id: PaneId,
    row: usize,
    s: &str,
    hotspots: &mut Vec<TextHotspot>,
    widgets: &mut Vec<PatternWidgetMatch>,
)
    ensures
        final(hotspots)@ == old(hotspots)@ + hotspots_of(matches@, row, s@),
        final(widgets)@ == old(widgets)@ + widgets_of(matches@, pane_id, row, s@),
{
    let map = rows::byte_to_col_map(s);
    let mut i: usize = 0;
    proof {
        assert(matches@.take(0) =~= Seq::<PatternMatch>::empty());
        assert(hotspots@ + Seq::<TextHotspot>::empty() =~= hotspots@);
        assert(widgets@ + Seq::<PatternWidgetMatch>::empty() =~= widgets@);
    }
    while i < matches.len()
        invariant
            i <= matches@.len(),
            map@.len() == crate::text::byte_len(s@) + 1,
            forall|b: int| 0 <= b < map@.len() ==> #[trigger] map@[b] == rows::column_of(s@, b),
            hotspots@ == old(hotspots)@ + hotspots_of(matches@.take(i as int), row, s@),
            widgets@ == old(widgets)@ + widgets_of(matches@.take(i as int), pane_id, row, s@),
        decreases matches@.len() - i,
    {
        let m = &matches[i];
        let start_col: usize = rows::column_at(&map, m.byte_start);
        let end_col: usize = rows::column_at(&map, m.byte_end);
        let ghost (before_h, before_w) = (hotspots@, widgets@);
        match &m.action {
            PatternAction::Hotspot { kind, text } => {
                hotspots.push(
                    TextHotspot {
                        row,
                        start_col,
                        end_col,
                        kind: *kind,
                        text: text.clone(),
                        is_dir: false,
                        resolved_text: None,
                    },
                );
            },
            PatternAction::Widget(widget) => {
                widgets.push(
                    PatternWidgetMatch { pane_id, row, start_col, end_col, widget: *widget },
                );
            },
            PatternAction::Other => {},
        }
        proof {
            let next = matches@.take(i + 1);
            assert(next.drop_last() =~= matches@.take(i as int));
            assert(next.last() == matches@[i as int]);
            assert(start_col == rows::column_or_byte(s@, m.byte_start as int));
            assert(end_col == rows::column_or_byte(s@, m.byte_end as int));
            assert(hotspots@ =~= old(hotspots)@ + hotspots_of(next, row, s@));
            assert(widgets@ =~= old(widgets)@ + widgets_of(next, pane_id, row, s@));
        }
        i += 1;
    }
    assert(matches@.take(i as int) =~= matches@);
}

/// Whether `engine` can find `matches` in the text `s`.
pub open spec fn finds<M: Fn(&str) -> Vec<PatternMatch>>(
    engine: M,
    s: Seq<char>,
    matches: Vec<PatternMatch>,
) -> bool {
    exists|a: &str| a@ == s && #[trigger] call_ensures(engine, (a,), matches)
}

/// Whether `engine` can find `matches` in the first rows, one list for each. Empty
/// rows are not looked at.
pub open spec fn matched<M: Fn(&str) -> Vec<PatternMatch>>(
    engine: M,
    texts: Seq<String>,
    matches: Seq<Vec<PatternMatch>>,
) -> bool {
    &&& matches.len() <= texts.len()
    &&& forall|row: int|
        #![trigger matches[row]]
        0 <= row < matches.len() && texts[row]@.len() > 0 ==> finds(
            engine,
            texts[row]@,
            matches[row],
        )
}

/// Later rows do not change what the earlier ones give.
proof fn lemma_earlier_rows(
    texts: Seq<String>,
    matches: Seq<Vec<PatternMatch>>,
    more: Vec<PatternMatch>,
    pane_id: PaneId,
    n: int,
)
    requires
        n <= matches.len(),
    ensures
        row_hotspots(texts, matches.push(more), n) == row_hotspots(texts, matches, n),
        row_widgets(texts, matches.push(more), pane_id, n) == row_widgets(
            texts,
            matches,
            pane_id,
            n,
        ),
    decreases n,
{
    if n > 0 {
        lemma_earlier_rows(texts, matches, more, pane_id, n - 1);
    }
}

/// Adds the hotspots and widgets that the matches of `engine` in the rows give. A
/// match gives the bytes of a row's text; what it becomes has columns.
pub fn extend_hotspots_from_patterns<M>(
    engine: &M,
    pane_id: PaneId,
    row_texts: &Vec<String>,
    hotspots: &mut Vec<TextHotspot>,
    widgets: &mut Vec<PatternWidgetMatch>,
) where M: Fn(&str) -> Vec<PatternMatch>
    requires
        forall|s: &str| call_requires(*engine, (s,)),
    ensures
        exists|matches: Seq<Vec<PatternMatch>>|
            {
                &&& matches.len() == row_texts@.len()
                &&& #[trigger] matched(*engine, row_texts@, matches)
                &&& final(hotspots)@ == old(hotspots)@ + row_hotspots(
                    row_texts@,
                    matches,
                    row_texts@.len() as int,
                )
                &&& final(widgets)@ == old(widgets)@ + row_widgets(
                    row_texts@,
                    matches,
                    pane_id,
                    row_texts@.len() as int,
                )
            },
{
    let mut row: usize = 0;
    let ghost mut all: Seq<Vec<PatternMatch>> = Seq::empty();
    proof {
        assert(hotspots@ + Seq::<TextHotspot>::empty() =~= hotspots@);
        assert(widgets@ + Seq::<PatternWidgetMatch>::empty() =~= widgets@);
    }
    while row < row_texts.len()
        invariant
            row <= row_texts@.len(),
            all.len() == row,
            forall|s: &str| call_requires(*engine, (s,)),
            matched(*engine, row_texts@, all),
            hotspots@ == old(hotspots)@ + row_hotspots(row_texts@, all, row as int),
            widgets@ == old(widgets)@ + row_widgets(row_texts@, all, pane_id, row as int),
        decreases row_texts@.len() - row,
    {
        let ghost before = all;
        let text = row_texts[row].as_str();
        let matches: Vec<PatternMatch> = if text.unicode_len() > 0 {
            engine(text)
        } else {
            Vec::new()
        };
        extend_row(&matches, pane_id, row, text, hotspots, widgets);
        proof {
            all = before.push(matches);
            lemma_earlier_rows(row_texts@, before, matches, pane_id, row as int);
            assert(all[row as int] == matches);
            if text@.len() > 0 {
                assert(finds(*engine, row_texts@[row as int]@, matches));
            }
            assert forall|k: int| #![trigger all[k]] 0 <= k < all.len() && row_texts@[k]@.len()
                > 0 implies finds(*engine, row_texts@[k]@, all[k]) by {
                if k < row {
                    assert(all[k] == before[k]);
                }
            }
        }
        row += 1;
        assert(hotspots@ =~= old(hotspots)@ + row_hotspots(row_texts@, all, row as int));
        assert(widgets@ =~= old(widgets)@ + row_widgets(row_texts@, all, pane_id, row as int));
    }
}

} // verus!
