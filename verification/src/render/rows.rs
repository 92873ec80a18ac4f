//! The rows of a pane as text.
use super::cells::RenderCell;
use crate::term_flags;
use crate::term_flags::CellFlag;
use crate::text;
use vstd::prelude::*;

verus! {

/// The characters with `c` at column `col`, filled up with spaces if they do not
/// reach that far.
pub open spec fn put(chars: Seq<char>, col: int, c: char) -> Seq<char> {
    if col < chars.len() {
        chars.update(col, c)
    } else {
        (chars + Seq::new((col - chars.len()) as nat, |i: int| ' ')).push(c)
    }
}

/// The text of a row: each cell at its column, a later one over an earlier one,
/// and spaces where there is none.
pub open spec fn row_text(cells: Seq<RenderCell>, row: int) -> Seq<char>
    decreases cells.len(),
{
    if cells.len() == 0 {
        seq![]
    } else {
        let rest = row_text(cells.drop_last(), row);
        let cell = cells.last();
        if cell.row == row {
            put(rest, cell.col as int, cell.c)
        } else {
            rest
        }
    }
}

fn put_char(chars: &mut Vec<char>, col: usize, c: char)
    ensures
        final(chars)@ == put(old(chars)@, col as int, c),
{
    let ghost n = chars@.len() as int;
    if col < chars.len() {
        chars.set(col, c);
        return;
    }
    while chars.len() < col
        invariant
            n <= col,
            old(chars)@.len() == n,
            n <= chars@.len() <= col,
            chars@ == old(chars)@ + Seq::new((chars@.len() - n) as nat, |i: int| ' '),
        decreases col - chars@.len(),
    {
        let ghost before = chars@;
        chars.push(' ');
        assert(chars@ =~= old(chars)@ + Seq::new((chars@.len() - n) as nat, |i: int| ' '));
    }
    chars.push(c);
}

/// The text of one row.
fn one_row(cells: &Vec<RenderCell>, row: usize) -> (r: String)
    ensures
        r@ == row_text(cells@, row as int),
{
    let mut chars: Vec<char> = Vec::new();
    let mut i: usize = 0;
    assert(cells@.take(0) =~= Seq::<RenderCell>::empty());
    while i < cells.len()
        invariant
            i <= cells@.len(),
            chars@ == row_text(cells@.take(i as int), row as int),
        decreases cells@.len() - i,
    {
        proof {
            let next = cells@.take(i + 1);
            assert(next.drop_last() =~= cells@.take(i as int));
            assert(next.last() == cells@[i as int]);
        }
        if cells[i].row == row {
            put_char(&mut chars, cells[i].col, cells[i].c);
        }
        i += 1;
    }
    assert(cells@.take(i as int) =~= cells@);
    let n: usize = chars.len();
    let r = text::from_chars(&chars, 0, n);
    assert(r@ =~= chars@);
    r
}

/// The texts of the rows on the screen.
pub fn extract_row_text_from_cells(cells: &Vec<RenderCell>, screen_lines: usize) -> (r: Vec<String>)
    ensures
        r@.len() == screen_lines,
        forall|row: int| 0 <= row < screen_lines ==> (#[trigger] r@[row])@ == row_text(cells@, row),
{
    let mut rows: Vec<String> = Vec::new();
    let mut row: usize = 0;
    while row < screen_lines
        invariant
            row <= screen_lines,
            rows@.len() == row,
            forall|k: int| 0 <= k < row ==> (#[trigger] rows@[k])@ == row_text(cells@, k),
        decreases screen_lines - row,
    {
        rows.push(one_row(cells, row));
        row += 1;
    }
    rows
}

/// Which cell fills a place: the last one in the list.
pub open spec fn fills(cells: Seq<RenderCell>, row: int, col: int, k: int) -> bool {
    &&& 0 <= k < cells.len()
    &&& cells[k].row == row
    &&& cells[k].col == col
    &&& forall|j: int|
        k < j < cells.len() ==> !((#[trigger] cells[j]).row == row && cells[j].col == col)
}

/// A character of a row's text is that of the last cell at its place, and a row
/// reaches as far as its cells do.
pub proof fn law_row_text_shows_cells(cells: Seq<RenderCell>, row: int, k: int)
    requires
        0 <= k < cells.len(),
        fills(cells, row, cells[k].col as int, k),
    ensures
        cells[k].col < row_text(cells, row).len(),
        row_text(cells, row)[cells[k].col as int] == cells[k].c,
    decreases cells.len(),
{
    let col = cells[k].col as int;
    let init = cells.drop_last();
    if k < cells.len() - 1 {
        assert(init[k] == cells[k]);
        assert forall|j: int| k < j < init.len() implies !((#[trigger] init[j]).row == row
            && init[j].col == col) by {
            assert(init[j] == cells[j]);
        }
        law_row_text_shows_cells(init, row, k);
        assert(cells[cells.len() - 1] == cells.last());
    }
}

/// A column of a row's text that no cell fills holds a space.
pub proof fn law_row_text_fills_gaps(cells: Seq<RenderCell>, row: int, col: int)
    requires
        0 <= col < row_text(cells, row).len(),
        forall|k: int|
            0 <= k < cells.len() ==> !((#[trigger] cells[k]).row == row && cells[k].col == col),
    ensures
        row_text(cells, row)[col] == ' ',
    decreases cells.len(),
{
    let init = cells.drop_last();
    assert forall|k: int| 0 <= k < init.len() implies !((#[trigger] init[k]).row == row
        && init[k].col == col) by {
        assert(init[k] == cells[k]);
    }
    assert(cells[cells.len() - 1] == cells.last());
    if col < row_text(init, row).len() {
        law_row_text_fills_gaps(init, row, col);
    }
}

/// Whether some cell of a row says that the line goes on below.
pub open spec fn row_wraps(cells: Seq<RenderCell>, row: int) -> bool {
    exists|i: int|
        0 <= i < cells.len() && (#[trigger] cells[i]).row == row && term_flags::cell_marked(
            cells[i].flags,
            CellFlag::WrapLine,
        )
}

fn does_wrap(cells: &Vec<RenderCell>, row: usize) -> (r: bool)
    ensures
        r == row_wraps(cells@, row as int),
{
    let mut i: usize = 0;
    while i < cells.len()
        invariant
            i <= cells@.len(),
            forall|j: int|
                0 <= j < i ==> !((#[trigger] cells@[j]).row == row && term_flags::cell_marked(
                    cells@[j].flags,
                    CellFlag::WrapLine,
                )),
        decreases cells@.len() - i,
    {
        if cells[i].row == row && term_flags::cell_contains(cells[i].flags, CellFlag::WrapLine) {
            assert(cells@[i as int].row == row);
            return true;
        }
        i += 1;
    }
    false
}

/// For each row on the screen, whether it goes on with the line of the row above.
pub fn compute_wrap_continuation(cells: &Vec<RenderCell>, screen_lines: usize) -> (r: Vec<bool>)
    ensures
        r@.len() == screen_lines,
        forall|row: int|
            0 <= row < screen_lines ==> #[trigger] r@[row] == (row > 0 && row_wraps(
                cells@,
                row - 1,
            )),
{
    let mut out: Vec<bool> = Vec::new();
    let mut row: usize = 0;
    while row < screen_lines
        invariant
            row <= screen_lines,
            out@.len() == row,
            forall|k: int|
                0 <= k < row ==> #[trigger] out@[k] == (k > 0 && row_wraps(cells@, k - 1)),
        decreases screen_lines - row,
    {
        if row == 0 {
            out.push(false);
        } else {
            out.push(does_wrap(cells, row - 1));
        }
        row += 1;
    }
    out
}

/// The column of a byte in a row's text: the number of characters that start
/// before it.
pub open spec fn column_of(s: Seq<char>, byte: int) -> nat
    decreases s.len(),
{
    if s.len() == 0 {
        0
    } else {
        column_of(s.drop_last(), byte) + if text::byte_len(s.drop_last()) < byte {
            1nat
        } else {
            0
        }
    }
}

/// The column of a byte, or its number where it lies behind the text.
pub open spec fn column_or_byte(s: Seq<char>, byte: int) -> int {
    if byte <= text::byte_len(s) {
        column_of(s, byte) as int
    } else {
        byte
    }
}

proof fn lemma_column_bounds(s: Seq<char>, byte: int)
    ensures
        column_of(s, byte) <= s.len(),
        byte <= 0 ==> column_of(s, byte) == 0,
        byte >= text::byte_len(s) && s.len() > 0 ==> column_of(s, byte) == s.len(),
    decreases s.len(),
{
    if s.len() > 0 {
        lemma_column_bounds(s.drop_last(), byte);
        assert(s =~= s.drop_last().push(s.last()));
        text::lemma_byte_len_push(s.drop_last(), s.last());
        if byte >= text::byte_len(s) && s.drop_last().len() == 0 {
            assert(column_of(s.drop_last(), byte) == 0);
        }
    }
}

/// The byte at which a character starts has the character's column, and the end
/// of the text has the column behind the last one.
pub proof fn law_column_of_character(s: Seq<char>, k: int)
    requires
        0 <= k <= s.len(),
    ensures
        column_of(s, text::byte_len(s.take(k)) as int) == k,
    decreases s.len(),
{
    let byte = text::byte_len(s.take(k)) as int;
    if s.len() > 0 {
        let init = s.drop_last();
        assert(s =~= init.push(s.last()));
        text::lemma_byte_len_push(init, s.last());
        if k < s.len() {
            assert(s.take(k) =~= init.take(k));
            law_column_of_character(init, k);
            text::lemma_byte_len_take_monotonic(init, k, init.len() as int);
            assert(init.take(init.len() as int) =~= init);
        } else {
            assert(s.take(k) =~= s);
            lemma_column_bounds(s, byte);
        }
    } else {
        assert(s.take(k) =~= s);
    }
}

/// The column of each byte of a row's text, and of its end.
pub fn byte_to_col_map(row: &str) -> (r: Vec<usize>)
    ensures
        r@.len() == text::byte_len(row@) + 1,
        forall|b: int| 0 <= b < r@.len() ==> #[trigger] r@[b] == column_of(row@, b),
{
    let chars = text::to_chars(row);
    let n: usize = chars.len();
    let mut out: Vec<usize> = Vec::new();
    out.push(0);
    let mut k: usize = 0;
    assert(row@.take(0) =~= Seq::<char>::empty());
    while k < n
        invariant
            chars@ == row@,
            n == row@.len(),
            k <= n,
            out@.len() == text::byte_len(row@.take(k as int)) + 1,
            forall|b: int|
                0 <= b < out@.len() ==> #[trigger] out@[b] == column_of(row@.take(k as int), b),
        decreases n - k,
    {
        let width: usize = text::char_width(chars[k]);
        let ghost (now, next) = (row@.take(k as int), row@.take(k + 1));
        let ghost start = out@.len();
        let ghost before = out@;
        proof {
            assert(next =~= now.push(row@[k as int]));
            assert(next.drop_last() =~= now);
            text::lemma_byte_len_push(now, row@[k as int]);
        }
        let mut w: usize = 0;
        while w < width
            invariant
                w <= width,
                k < n,
                n == row@.len(),
                now == row@.take(k as int),
                next == row@.take(k + 1),
                next.len() == k + 1,
                next.drop_last() == now,
                start == text::byte_len(now) + 1,
                before.len() == start,
                out@.len() == start + w,
                forall|b: int| 0 <= b < start ==> #[trigger] out@[b] == before[b],
                forall|b: int| start <= b < out@.len() ==> #[trigger] out@[b] == k + 1,
            decreases width - w,
        {
            out.push(k + 1);
            w += 1;
        }
        proof {
            assert forall|b: int| 0 <= b < out@.len() implies #[trigger] out@[b] == column_of(
                next,
                b,
            ) by {
                if b < start {
                    assert(out@[b] == before[b]);
                } else {
                    lemma_column_bounds(now, b);
                    if now.len() == 0 {
                        assert(column_of(now, b) == 0);
                    }
                }
            }
        }
        k += 1;
    }
    assert(row@.take(k as int) =~= row@);
    out
}

/// The column of a byte, given those of all bytes of the text; the number of the
/// byte where it lies behind the text.
pub fn column_at(map: &Vec<usize>, byte: usize) -> (r: usize)
    ensures
        r == if byte < map@.len() {
            map@[byte as int]
        } else {
            byte
        },
{
    if byte < map.len() {
        map[byte]
    } else {
        byte
    }
}

} // verus!
