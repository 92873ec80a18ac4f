//! The cells of a pane, and the hotspots and links in them.
use crate::hotspot::HotspotKind;
use crate::term_flags;
use crate::term_flags::CellFlag;
use vstd::prelude::*;

verus! {

/// Where a link comes from.
#[derive(Debug, Clone, Copy, PartialEq, Eq, Structural)]
pub enum HyperlinkSource {
    /// The program in the terminal marked it.
    Osc8,
    /// It was found in the text.
    Regex,
}

/// The hotspot of a cell.
#[derive(Debug, PartialEq, Eq)]
pub struct CellHotspot {
    pub kind: HotspotKind,
    pub text: String,
    pub is_dir: bool,
    pub resolved_text: Option<String>,
}

/// A part of a row that can be clicked.
#[derive(Debug, PartialEq, Eq)]
pub struct TextHotspot {
    pub row: usize,
    pub start_col: usize,
    /// The column behind the last one.
    pub end_col: usize,
    pub kind: HotspotKind,
    pub text: String,
    pub is_dir: bool,
    pub resolved_text: Option<String>,
}

/// A cell of a terminal. Lines above the screen are negative.
#[derive(Debug, PartialEq, Eq)]
pub struct GridChar {
    pub line: i32,
    pub col: usize,
    pub c: char,
    pub flags: u16,
    pub hyperlink: Option<String>,
}

/// A cell to draw.
#[derive(Debug, PartialEq, Eq)]
pub struct RenderCell {
    pub row: usize,
    pub col: usize,
    pub c: char,
    pub flags: u16,
    /// The place of the cell among those of the terminal, which has its colours.
    pub index: usize,
    pub hyperlink: Option<String>,
    pub hyperlink_source: Option<HyperlinkSource>,
    pub hotspot: Option<CellHotspot>,
}

pub(crate) fn copy_text(t: &Option<String>) -> (r: Option<String>)
    ensures
        r == *t,
{
    match t {
        Some(s) => Some(s.clone()),
        None => None,
    }
}

impl RenderCell {
    /// The same cell once more.
    pub fn copy(&self) -> (r: RenderCell)
        ensures
            r == *self,
    {
        RenderCell {
            row: self.row,
            col: self.col,
            c: self.c,
            flags: self.flags,
            index: self.index,
            hyperlink: copy_text(&self.hyperlink),
            hyperlink_source: self.hyperlink_source,
            hotspot: match &self.hotspot {
                Some(h) => Some(
                    CellHotspot {
                        kind: h.kind,
                        text: h.text.clone(),
                        is_dir: h.is_dir,
                        resolved_text: copy_text(&h.resolved_text),
                    },
                ),
                None => None,
            },
        }
    }
}

/// What is drawn of a cell of the terminal: nothing above or below the view, and
/// nothing for the second half of a wide character.
pub open spec fn drawn_cell(g: GridChar, index: int, offset: usize, screen_lines: usize) -> Option<
    RenderCell,
> {
    let row = g.line + offset;
    if row < 0 || row >= screen_lines || term_flags::cell_marked(
        g.flags,
        CellFlag::WideCharSpacer,
    ) {
        None
    } else {
        Some(
            RenderCell {
                row: row as usize,
                col: g.col,
                c: g.c,
                flags: g.flags,
                index: index as usize,
                hyperlink: g.hyperlink,
                hyperlink_source: if g.hyperlink is Some {
                    Some(HyperlinkSource::Osc8)
                } else {
                    None
                },
                hotspot: None,
            },
        )
    }
}

/// What is drawn of the cells of a terminal, in their order.
pub open spec fn drawn_cells(grid: Seq<GridChar>, offset: usize, screen_lines: usize) -> Seq<
    RenderCell,
>
    decreases grid.len(),
{
    if grid.len() == 0 {
        seq![]
    } else {
        let rest = drawn_cells(grid.drop_last(), offset, screen_lines);
        match drawn_cell(grid.last(), grid.len() - 1, offset, screen_lines) {
            Some(cell) => rest.push(cell),
            None => rest,
        }
    }
}

fn draw_cell(g: &GridChar, index: usize, offset: usize, screen_lines: usize) -> (r: Option<
    RenderCell,
>)
    ensures
        r == drawn_cell(*g, index as int, offset, screen_lines),
{
    let row: i128 = g.line as i128 + offset as i128;
    if row < 0 || row >= screen_lines as i128 {
        return None;
    }
    if term_flags::cell_contains(g.flags, CellFlag::WideCharSpacer) {
        return None;
    }
    let hyperlink_source = if g.hyperlink.is_some() {
        Some(HyperlinkSource::Osc8)
    } else {
        None
    };
    Some(
        RenderCell {
            row: row as usize,
            col: g.col,
            c: g.c,
            flags: g.flags,
            index,
            hyperlink: copy_text(&g.hyperlink),
            hyperlink_source,
            hotspot: None,
        },
    )
}

/// The cells to draw of a terminal that is scrolled back by `offset` lines.
pub fn collect_cells(grid: &Vec<GridChar>, offset: usize, screen_lines: usize) -> (r: Vec<
    RenderCell,
>)
    ensures
        r@ == drawn_cells(grid@, offset, screen_lines),
{
    let mut cells: Vec<RenderCell> = Vec::new();
    let mut i: usize = 0;
    assert(grid@.take(0) =~= Seq::<GridChar>::empty());
    while i < grid.len()
        invariant
            i <= grid@.len(),
            cells@ == drawn_cells(grid@.take(i as int), offset, screen_lines),
        decreases grid@.len() - i,
    {
        proof {
            let next = grid@.take(i + 1);
            assert(next.drop_last() =~= grid@.take(i as int));
            assert(next.last() == grid@[i as int]);
        }
        if let Some(cell) = draw_cell(&grid[i], i, offset, screen_lines) {
            cells.push(cell);
        }
        i += 1;
    }
    assert(grid@.take(i as int) =~= grid@);
    cells
}

/// Every drawn cell is on the screen and is one of the terminal's, and none is
/// the second half of a wide character.
pub proof fn law_drawn_cells(grid: Seq<GridChar>, offset: usize, screen_lines: usize, k: int)
    requires
        grid.len() <= usize::MAX,
        0 <= k < drawn_cells(grid, offset, screen_lines).len(),
    ensures
        ({
            let cell = drawn_cells(grid, offset, screen_lines)[k];
            &&& cell.row < screen_lines
            &&& cell.index < grid.len()
            &&& cell.row == grid[cell.index as int].line + offset
            &&& cell.c == grid[cell.index as int].c
            &&& !term_flags::cell_marked(cell.flags, CellFlag::WideCharSpacer)
        }),
    decreases grid.len(),
{
    let rest = drawn_cells(grid.drop_last(), offset, screen_lines);
    if k < rest.len() {
        law_drawn_cells(grid.drop_last(), offset, screen_lines, k);
        assert(drawn_cells(grid, offset, screen_lines)[k] == rest[k]);
    }
}

impl TextHotspot {
    pub open spec fn covers(self, row: usize, col: usize) -> bool {
        self.row == row && self.start_col <= col < self.end_col
    }

    pub open spec fn mark(self) -> CellHotspot {
        CellHotspot {
            kind: self.kind,
            text: self.text,
            is_dir: self.is_dir,
            resolved_text: self.resolved_text,
        }
    }
}

/// The first of the hotspots that covers a cell.
pub open spec fn first_hotspot(hotspots: Seq<TextHotspot>, row: usize, col: usize) -> Option<
    CellHotspot,
>
    decreases hotspots.len(),
{
    if hotspots.len() == 0 {
        None
    } else if hotspots[0].covers(row, col) {
        Some(hotspots[0].mark())
    } else {
        first_hotspot(hotspots.skip(1), row, col)
    }
}

/// A cell with the first hotspot that covers it.
pub open spec fn with_hotspot(cell: RenderCell, hotspots: Seq<TextHotspot>) -> RenderCell {
    match first_hotspot(hotspots, cell.row, cell.col) {
        Some(h) => RenderCell { hotspot: Some(h), ..cell },
        None => cell,
    }
}

fn find_hotspot(hotspots: &Vec<TextHotspot>, row: usize, col: usize) -> (r: Option<CellHotspot>)
    ensures
        r == first_hotspot(hotspots@, row, col),
{
    let mut i: usize = 0;
    assert(hotspots@.skip(0) =~= hotspots@);
    while i < hotspots.len()
        invariant
            i <= hotspots@.len(),
            first_hotspot(hotspots@, row, col) == first_hotspot(hotspots@.skip(i as int), row, col),
        decreases hotspots@.len() - i,
    {
        let h = &hotspots[i];
        assert(hotspots@.skip(i as int).skip(1) =~= hotspots@.skip(i + 1));
        if h.row == row && col >= h.start_col && col < h.end_col {
            return Some(
                CellHotspot {
                    kind: h.kind,
                    text: h.text.clone(),
                    is_dir: h.is_dir,
                    resolved_text: copy_text(&h.resolved_text),
                },
            );
        }
        i += 1;
    }
    None
}

/// Marks the cells that hotspots cover; of several, the first one counts.
pub fn apply_hotspots_to_cells(cells: &mut Vec<RenderCell>, hotspots: &Vec<TextHotspot>)
    ensures
        final(cells)@.len() == old(cells)@.len(),
        forall|i: int|
            0 <= i < old(cells)@.len() ==> #[trigger] final(cells)@[i] == with_hotspot(
                old(cells)@[i],
                hotspots@,
            ),
{
    let mut i: usize = 0;
    while i < cells.len()
        invariant
            i <= cells@.len(),
            cells@.len() == old(cells)@.len(),
            forall|j: int|
                0 <= j < i ==> #[trigger] cells@[j] == with_hotspot(old(cells)@[j], hotspots@),
            forall|j: int| i <= j < cells@.len() ==> #[trigger] cells@[j] == old(cells)@[j],
        decreases cells@.len() - i,
    {
        let found = find_hotspot(hotspots, cells[i].row, cells[i].col);
        if found.is_some() {
            cells[i].hotspot = found;
        }
        i += 1;
    }
}

/// A cell has the hotspot of the first in the list that covers it, whatever
/// stands behind that one.
pub proof fn law_first_hotspot_wins(
    before: Seq<TextHotspot>,
    h: TextHotspot,
    after: Seq<TextHotspot>,
    cell: RenderCell,
)
    requires
        h.covers(cell.row, cell.col),
        forall|i: int|
            0 <= i < before.len() ==> !(#[trigger] before[i]).covers(cell.row, cell.col),
    ensures
        with_hotspot(cell, before + seq![h] + after).hotspot == Some(h.mark()),
    decreases before.len(),
{
    let all = before + seq![h] + after;
    if before.len() > 0 {
        assert(!before[0].covers(cell.row, cell.col));
        assert(all[0] == before[0]);
        assert(all.skip(1) =~= before.skip(1) + seq![h] + after);
        assert forall|i: int| 0 <= i < before.skip(1).len() implies !(#[trigger] before.skip(
            1,
        )[i]).covers(cell.row, cell.col) by {
            assert(before.skip(1)[i] == before[i + 1]);
        }
        law_first_hotspot_wins(before.skip(1), h, after, cell);
    } else {
        assert(all[0] == h);
    }
}

/// Marking hotspots changes nothing else of a cell.
pub proof fn law_hotspots_change_nothing_else(cell: RenderCell, hotspots: Seq<TextHotspot>)
    ensures
        with_hotspot(cell, hotspots) == (RenderCell {
            hotspot: with_hotspot(cell, hotspots).hotspot,
            ..cell
        }),
        hotspots.len() == 0 ==> with_hotspot(cell, hotspots) == cell,
{
}

/// Whether a row is among the changed ones.
pub open spec fn row_damaged(damage: Seq<bool>, row: usize) -> bool {
    row < damage.len() && damage[row as int]
}

/// The cells of the changed rows.
pub open spec fn damaged_of(cells: Seq<RenderCell>, damage: Seq<bool>) -> Seq<RenderCell>
    decreases cells.len(),
{
    if cells.len() == 0 {
        seq![]
    } else {
        let rest = damaged_of(cells.drop_last(), damage);
        if row_damaged(damage, cells.last().row) {
            rest.push(cells.last())
        } else {
            rest
        }
    }
}

/// The cells of the changed rows.
pub fn damaged_cells(cells: &Vec<RenderCell>, damage: &[bool]) -> (r: Vec<RenderCell>)
    ensures
        r@ == damaged_of(cells@, damage@),
{
    let mut out: Vec<RenderCell> = Vec::new();
    let mut i: usize = 0;
    assert(cells@.take(0) =~= Seq::<RenderCell>::empty());
    while i < cells.len()
        invariant
            i <= cells@.len(),
            out@ == damaged_of(cells@.take(i as int), damage@),
        decreases cells@.len() - i,
    {
        proof {
            let next = cells@.take(i + 1);
            assert(next.drop_last() =~= cells@.take(i as int));
            assert(next.last() == cells@[i as int]);
        }
        let row: usize = cells[i].row;
        if row < damage.len() && damage[row] {
            out.push(cells[i].copy());
        }
        i += 1;
    }
    assert(cells@.take(i as int) =~= cells@);
    out
}

/// A link that was found in a cell.
#[derive(Debug, PartialEq, Eq)]
pub struct FoundLink {
    pub row: usize,
    pub col: usize,
    pub url: String,
    pub source: HyperlinkSource,
}

/// The link in a cell. One of unknown origin was found in the text.
pub open spec fn link_in(cell: RenderCell) -> Option<FoundLink> {
    match cell.hyperlink {
        Some(url) => Some(
            FoundLink {
                row: cell.row,
                col: cell.col,
                url,
                source: match cell.hyperlink_source {
                    Some(s) => s,
                    None => HyperlinkSource::Regex,
                },
            },
        ),
        None => None,
    }
}

/// The links in cells, in their order.
pub open spec fn links_in(cells: Seq<RenderCell>) -> Seq<FoundLink>
    decreases cells.len(),
{
    if cells.len() == 0 {
        seq![]
    } else {
        let rest = links_in(cells.drop_last());
        match link_in(cells.last()) {
            Some(link) => rest.push(link),
            None => rest,
        }
    }
}

/// The links in cells, in their order.
pub fn collect_links(cells: &Vec<RenderCell>) -> (r: Vec<FoundLink>)
    ensures
        r@ == links_in(cells@),
{
    let mut out: Vec<FoundLink> = Vec::new();
    let mut i: usize = 0;
    assert(cells@.take(0) =~= Seq::<RenderCell>::empty());
    while i < cells.len()
        invariant
            i <= cells@.len(),
            out@ == links_in(cells@.take(i as int)),
        decreases cells@.len() - i,
    {
        let cell = &cells[i];
        proof {
            let next = cells@.take(i + 1);
            assert(next.drop_last() =~= cells@.take(i as int));
            assert(next.last() == cells@[i as int]);
        }
        if let Some(url) = &cell.hyperlink {
            let source = match cell.hyperlink_source {
                Some(s) => s,
                None => HyperlinkSource::Regex,
            };
            out.push(FoundLink { row: cell.row, col: cell.col, url: url.clone(), source });
        }
        i += 1;
    }
    assert(cells@.take(i as int) =~= cells@);
    out
}

/// The link that was found for a place: the last one in the list.
pub open spec fn last_link(links: Seq<FoundLink>, row: usize, col: usize) -> Option<FoundLink>
    decreases links.len(),
{
    if links.len() == 0 {
        None
    } else if links.last().row == row && links.last().col == col {
        Some(links.last())
    } else {
        last_link(links.drop_last(), row, col)
    }
}

/// A cell with the link that was found for its place.
pub open spec fn with_link(cell: RenderCell, links: Seq<FoundLink>) -> RenderCell {
    match last_link(links, cell.row, cell.col) {
        Some(link) => RenderCell {
            hyperlink: Some(link.url),
            hyperlink_source: Some(link.source),
            ..cell
        },
        None => cell,
    }
}

fn find_link(links: &Vec<FoundLink>, row: usize, col: usize) -> (r: Option<&FoundLink>)
    ensures
        r is Some <==> last_link(links@, row, col) is Some,
        r matches Some(link) ==> last_link(links@, row, col) == Some(*link),
{
    let mut n: usize = links.len();
    assert(links@.take(n as int) =~= links@);
    while n > 0
        invariant
            n <= links@.len(),
            last_link(links@, row, col) == last_link(links@.take(n as int), row, col),
        decreases n,
    {
        proof {
            let now = links@.take(n as int);
            assert(now.last() == links@[n - 1]);
            assert(now.drop_last() =~= links@.take(n - 1));
        }
        if links[n - 1].row == row && links[n - 1].col == col {
            return Some(&links[n - 1]);
        }
        n -= 1;
    }
    None
}

/// Gives the cells the links that were found for their places.
pub fn apply_links(cells: &mut Vec<RenderCell>, links: &Vec<FoundLink>)
    ensures
        final(cells)@.len() == old(cells)@.len(),
        forall|i: int|
            0 <= i < old(cells)@.len() ==> #[trigger] final(cells)@[i] == with_link(
                old(cells)@[i],
                links@,
            ),
{
    let mut i: usize = 0;
    while i < cells.len()
        invariant
            i <= cells@.len(),
            cells@.len() == old(cells)@.len(),
            forall|j: int|
                0 <= j < i ==> #[trigger] cells@[j] == with_link(old(cells)@[j], links@),
            forall|j: int| i <= j < cells@.len() ==> #[trigger] cells@[j] == old(cells)@[j],
        decreases cells@.len() - i,
    {
        if let Some(link) = find_link(links, cells[i].row, cells[i].col) {
            cells[i].hyperlink = Some(link.url.clone());
            cells[i].hyperlink_source = Some(link.source);
        }
        i += 1;
    }
}

} // verus!
