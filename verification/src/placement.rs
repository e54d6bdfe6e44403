//! Where a text goes on a row of fixed width, and what the row shows once the
//! text is written on it.

use vstd::prelude::*;
use crate::compositor::{Cell, CellStyle};

verus! {

/// The column where a text of `len` characters starts when it is centred on
/// column `pos` of a row of `width` columns: `pos - len / 2`, not left of the
/// row and, where the text fits, not so far right that it would leave the
/// row. A text longer than the row starts at column 0 and loses its end.
pub open spec fn start_of(pos: nat, len: nat, width: nat) -> nat {
    let centered = if pos >= len / 2 {
        (pos - len / 2) as nat
    } else {
        0
    };
    let last = if width >= len {
        (width - len) as nat
    } else {
        0
    };
    if centered <= last {
        centered
    } else {
        last
    }
}

/// The start column of a text centred on `pos`. What is visible of the text,
/// its first `min(len, width)` characters, ends within the row.
pub fn text_start(pos: usize, len: usize, width: usize) -> (start: usize)
    ensures
        start == start_of(pos as nat, len as nat, width as nat),
        start + (if len <= width {
            len
        } else {
            width
        }) <= width,
        start <= pos,
{
    let centered = if pos >= len / 2 {
        pos - len / 2
    } else {
        0
    };
    let last = if width >= len {
        width - len
    } else {
        0
    };
    if centered <= last {
        centered
    } else {
        last
    }
}

/// A blank cell.
pub open spec fn blank_cell(style: CellStyle) -> Cell {
    Cell { glyph: ' ', style }
}

/// A row of `width` blank cells.
pub open spec fn blank_cells(width: nat, style: CellStyle) -> Seq<Cell> {
    Seq::new(width, |k: int| blank_cell(style))
}

/// A row of `width` blank cells in one style.
pub fn blank_row(width: usize, style: CellStyle) -> (row: Vec<Cell>)
    ensures
        row@ == blank_cells(width as nat, style),
{
    let mut row: Vec<Cell> = Vec::new();
    let mut column: usize = 0;
    while column < width
        invariant
            column <= width,
            row@.len() == column,
            forall|k: int| 0 <= k < column ==> row@[k] == blank_cell(style),
        decreases width - column,
    {
        row.push(Cell { glyph: ' ', style });
        column += 1;
    }
    row
}

/// Column `k` of a row on which `text` was written from column `start` on.
pub open spec fn overlaid_cell(
    row: Seq<Cell>,
    start: int,
    text: Seq<char>,
    style: CellStyle,
    k: int,
) -> Cell {
    if start <= k < start + text.len() {
        Cell { glyph: text[k - start], style }
    } else {
        row[k]
    }
}

/// The row with `text` written on it from column `start` on, in `style`. The
/// row keeps its width: what of the text falls beyond it is lost.
pub open spec fn overlaid(row: Seq<Cell>, start: int, text: Seq<char>, style: CellStyle) -> Seq<
    Cell,
> {
    Seq::new(row.len(), |k: int| overlaid_cell(row, start, text, style, k))
}

/// The row with `text` centred on column `pos`.
pub open spec fn placed(row: Seq<Cell>, pos: nat, text: Seq<char>, style: CellStyle) -> Seq<Cell> {
    overlaid(row, start_of(pos, text.len(), row.len()) as int, text, style)
}

/// Writes `text` on the row, centred on column `pos`, over what the row held
/// there.
pub fn place_text(row: &mut Vec<Cell>, pos: usize, text: &str, style: CellStyle)
    ensures
        final(row)@ == placed(old(row)@, pos as nat, text@, style),
{
    let width = row.len();
    let len = text.unicode_len();
    let start = text_start(pos, len, width);
    let end = if len <= width - start {
        start + len
    } else {
        width
    };
    let mut column = start;
    while column < end
        invariant
            start <= column <= end <= width,
            end <= start + len,
            len == text@.len(),
            row@.len() == width,
            width == old(row)@.len(),
            forall|k: int|
                0 <= k < column ==> row@[k] == overlaid_cell(
                    old(row)@,
                    start as int,
                    text@,
                    style,
                    k,
                ),
            forall|k: int| column <= k < width ==> row@[k] == old(row)@[k],
        decreases end - column,
    {
        let glyph = text.get_char(column - start);
        row.set(column, Cell { glyph, style });
        column += 1;
    }
    assert(row@ =~= placed(old(row)@, pos as nat, text@, style));
}

} // verus!
