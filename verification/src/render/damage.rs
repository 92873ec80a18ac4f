//! Which rows of a terminal changed since they were last drawn.
use vstd::prelude::*;

verus! {

/// What the terminal says of one of its lines.
#[derive(Debug, Clone, Copy, PartialEq, Eq, Structural)]
pub struct LineDamage {
    pub line: usize,
    pub damaged: bool,
}

/// Whether `line` is among the changed ones.
pub open spec fn is_damaged(lines: Seq<LineDamage>, line: int) -> bool {
    exists|i: int|
        0 <= i < lines.len() && (#[trigger] lines[i]).damaged && lines[i].line == line
}

/// The rows of the screen that changed. Lines below the screen do not count.
pub fn damage_rows(lines: &Vec<LineDamage>, screen_lines: usize) -> (r: Vec<bool>)
    ensures
        r@.len() == screen_lines,
        forall|row: int| 0 <= row < screen_lines ==> #[trigger] r@[row] == is_damaged(lines@, row),
{
    let mut rows: Vec<bool> = Vec::new();
    let mut k: usize = 0;
    while k < screen_lines
        invariant
            k <= screen_lines,
            rows@.len() == k,
            forall|row: int| 0 <= row < k ==> !(#[trigger] rows@[row]),
        decreases screen_lines - k,
    {
        rows.push(false);
        k += 1;
    }
    let mut i: usize = 0;
    assert forall|row: int| 0 <= row < screen_lines implies #[trigger] rows@[row] == is_damaged(
        lines@.take(0),
        row,
    ) by {}
    while i < lines.len()
        invariant
            i <= lines@.len(),
            rows@.len() == screen_lines,
            forall|row: int|
                0 <= row < screen_lines ==> #[trigger] rows@[row] == is_damaged(
                    lines@.take(i as int),
                    row,
                ),
        decreases lines@.len() - i,
    {
        let bounds = lines[i];
        let ghost before = rows@;
        if bounds.damaged && bounds.line < screen_lines {
            rows.set(bounds.line, true);
        }
        proof {
            let (old_lines, new_lines) = (lines@.take(i as int), lines@.take(i + 1));
            assert forall|row: int| 0 <= row < screen_lines implies #[trigger] rows@[row]
                == is_damaged(new_lines, row) by {
                assert(before[row] == is_damaged(old_lines, row));
                assert(new_lines[i as int] == bounds);
                if is_damaged(old_lines, row) {
                    let j = choose|j: int|
                        0 <= j < old_lines.len() && (#[trigger] old_lines[j]).damaged
                            && old_lines[j].line == row;
                    assert(new_lines[j] == old_lines[j]);
                }
                if is_damaged(new_lines, row) && !(bounds.damaged && bounds.line == row) {
                    let j = choose|j: int|
                        0 <= j < new_lines.len() && (#[trigger] new_lines[j]).damaged
                            && new_lines[j].line == row;
                    assert(old_lines[j] == new_lines[j]);
                }
            }
        }
        i += 1;
    }
    assert(lines@.take(i as int) =~= lines@);
    rows
}

/// Whether some row changed.
pub open spec fn some_row(rows: Seq<bool>) -> bool {
    exists|i: int| 0 <= i < rows.len() && #[trigger] rows[i]
}

fn any(rows: &[bool]) -> (r: bool)
    ensures
        r == some_row(rows@),
{
    let mut i: usize = 0;
    while i < rows.len()
        invariant
            i <= rows@.len(),
            forall|j: int| 0 <= j < i ==> !(#[trigger] rows@[j]),
        decreases rows@.len() - i,
    {
        if rows[i] {
            assert(rows@[i as int]);
            return true;
        }
        i += 1;
    }
    false
}

/// Whether the rows that changed are known, and there are some.
pub fn damaged_rows_any(damaged_rows: Option<&[bool]>) -> (r: bool)
    ensures
        r == (damaged_rows is Some && some_row(damaged_rows->0@)),
{
    match damaged_rows {
        Some(rows) => any(rows),
        None => false,
    }
}

/// Whether the rows that changed are known, and there are none.
pub fn damage_rows_empty(damaged_rows: Option<&[bool]>) -> (r: bool)
    ensures
        r == (damaged_rows is Some && !some_row(damaged_rows->0@)),
{
    match damaged_rows {
        Some(rows) => !any(rows),
        None => false,
    }
}

/// Whether everything is to be drawn anew: whenever what was kept of the last
/// drawing is of another view, whatever changed.
pub fn should_force_full_rebuild(
    cache_matches_viewport: bool,
    _damaged_rows: Option<&[bool]>,
) -> (r: bool)
    ensures
        r == !cache_matches_viewport,
{
    !cache_matches_viewport
}

/// How a pane is drawn.
#[derive(Debug, Clone, Copy, PartialEq, Eq, Structural)]
pub enum Redraw {
    /// Nothing changed: what was kept is drawn again.
    Cached,
    /// Only the changed rows are looked at.
    Partial,
    Full,
}

pub open spec fn redraw_of(damage: Option<Seq<bool>>, cache_matches: bool) -> Redraw {
    match damage {
        _ if !cache_matches => Redraw::Full,
        None => Redraw::Full,
        Some(rows) => if some_row(rows) {
            Redraw::Partial
        } else {
            Redraw::Cached
        },
    }
}

/// How a pane is drawn. A pane of the daemon whose changes are unknown to it is
/// drawn anew, unless what was kept still fits.
pub fn plan_redraw(damage: Option<&[bool]>, cache_matches: bool, remote: bool) -> (r: Redraw)
    ensures
        r == redraw_of(
            match damage {
                Some(rows) => Some(rows@),
                None => None,
            },
            cache_matches,
        ),
{
    let empty = damage_rows_empty(damage);
    let force_full = should_force_full_rebuild(cache_matches, damage) || (remote && empty);
    if empty && cache_matches {
        Redraw::Cached
    } else if force_full || damage.is_none() {
        Redraw::Full
    } else {
        Redraw::Partial
    }
}

/// What was kept is drawn again only if it still fits and no row changed; if it
/// does not fit, everything is drawn anew.
pub proof fn law_kept_only_if_unchanged(damage: Option<Seq<bool>>, cache_matches: bool)
    ensures
        redraw_of(damage, cache_matches) == Redraw::Cached <==> cache_matches && damage is Some
            && !some_row(damage->0),
        !cache_matches ==> redraw_of(damage, cache_matches) == Redraw::Full,
{
}

} // verus!
