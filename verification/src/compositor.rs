//! Styles cell by cell: the progress bar with its overlays, and the merging
//! of a styled row into runs.

use vstd::prelude::*;
use crate::config::ProgressBarStyle;
use crate::text::push_char;
use crate::theme::{Color, ColorScheme};

verus! {

/// The style of a cell: its foreground colour, if one is set, and its
/// modifiers. Two styles are equal when all three fields are.
#[derive(Clone, Copy, Debug, PartialEq, Eq)]
pub struct CellStyle {
    pub fg: Option<Color>,
    pub bold: bool,
    pub italic: bool,
}

impl CellStyle {
    /// The style that sets nothing.
    pub open spec fn plain_spec() -> CellStyle {
        CellStyle { fg: None, bold: false, italic: false }
    }

    /// A foreground colour and no modifier.
    pub open spec fn colored(color: Color) -> CellStyle {
        CellStyle { fg: Some(color), bold: false, italic: false }
    }

    /// A foreground colour, in bold.
    pub open spec fn strong(color: Color) -> CellStyle {
        CellStyle { fg: Some(color), bold: true, italic: false }
    }

    /// A foreground colour, in italics.
    pub open spec fn slanted(color: Color) -> CellStyle {
        CellStyle { fg: Some(color), bold: false, italic: true }
    }

    /// The style that sets nothing.
    pub fn plain() -> (style: CellStyle)
        ensures
            style == CellStyle::plain_spec(),
    {
        CellStyle { fg: None, bold: false, italic: false }
    }

    /// A foreground colour and no modifier.
    pub fn fg(color: Color) -> (style: CellStyle)
        ensures
            style == CellStyle::colored(color),
    {
        CellStyle { fg: Some(color), bold: false, italic: false }
    }

    /// A foreground colour, in bold.
    pub fn bold_fg(color: Color) -> (style: CellStyle)
        ensures
            style == CellStyle::strong(color),
    {
        CellStyle { fg: Some(color), bold: true, italic: false }
    }

    /// A foreground colour, in italics.
    pub fn italic_fg(color: Color) -> (style: CellStyle)
        ensures
            style == CellStyle::slanted(color),
    {
        CellStyle { fg: Some(color), bold: false, italic: true }
    }

    /// Whether two styles are the same in colour and in both modifiers.
    pub fn same(&self, other: &CellStyle) -> (equal: bool)
        ensures
            equal == (*self == *other),
    {
        let same_fg = match (self.fg, other.fg) {
            (Some(a), Some(b)) => a == b,
            (None, None) => true,
            _ => false,
        };
        same_fg && self.bold == other.bold && self.italic == other.italic
    }
}

/// One cell of a row: a character and its style.
#[derive(Clone, Copy, Debug, PartialEq, Eq)]
pub struct Cell {
    pub glyph: char,
    pub style: CellStyle,
}

/// A run of text in one style.
#[derive(Clone, Debug, PartialEq, Eq)]
pub struct Span {
    pub text: String,
    pub style: CellStyle,
}

/// One colour channel between `from` and `to`, at `step` of `steps`:
/// `from + (to - from) * step / steps`, cut off to a whole number.
pub open spec fn blend_channel(from: u8, to: u8, step: nat, steps: nat) -> int {
    (from * steps + (to - from) * step) / (steps as int)
}

/// The colour between `start` and `end` at `step` of `steps`. Two 24-bit
/// colours are blended channel by channel; with any other colour the result
/// is `start`.
pub open spec fn blend(start: Color, end: Color, step: nat, steps: nat) -> Color {
    match (start, end) {
        (Color::Rgb(r1, g1, b1), Color::Rgb(r2, g2, b2)) => Color::Rgb(
            blend_channel(r1, r2, step, steps) as u8,
            blend_channel(g1, g2, step, steps) as u8,
            blend_channel(b1, b2, step, steps) as u8,
        ),
        _ => start,
    }
}

/// A blended channel lies between its two ends, so it is a byte.
pub proof fn lemma_blend_channel_range(from: u8, to: u8, step: nat, steps: nat)
    requires
        step < steps,
    ensures
        blend_channel(from, to, step, steps) == (from * (steps - step) + to * step) / (
        steps as int),
        from <= to ==> from <= blend_channel(from, to, step, steps) <= to,
        to <= from ==> to <= blend_channel(from, to, step, steps) <= from,
{
    let f = from as int;
    let t = to as int;
    let i = step as int;
    let w = steps as int;
    let num = f * w + (t - f) * i;
    assert(num == f * (w - i) + t * i) by (nonlinear_arith)
        requires
            num == f * w + (t - f) * i,
    ;
    if f <= t {
        assert(f * w <= num <= t * w) by (nonlinear_arith)
            requires
                num == f * w + (t - f) * i,
                0 <= i < w,
                f <= t,
        ;
        assert(f <= num / w <= t) by (nonlinear_arith)
            requires
                f * w <= num <= t * w,
                w > 0,
        ;
    }
    if t <= f {
        assert(t * w <= num <= f * w) by (nonlinear_arith)
            requires
                num == f * w + (t - f) * i,
                0 <= i < w,
                t <= f,
        ;
        assert(t <= num / w <= f) by (nonlinear_arith)
            requires
                t * w <= num <= f * w,
                w > 0,
        ;
    }
}

fn blend_byte(from: u8, to: u8, step: usize, steps: usize) -> (mixed: u8)
    requires
        step < steps,
    ensures
        mixed == blend_channel(from, to, step as nat, steps as nat),
{
    proof {
        lemma_blend_channel_range(from, to, step as nat, steps as nat);
        assert((from as int) * (steps - step) <= 255 * (steps - step)) by (nonlinear_arith)
            requires
                from <= 255,
                step < steps,
        ;
        assert((to as int) * step <= 255 * step) by (nonlinear_arith)
            requires
                to <= 255,
                step >= 0,
        ;
    }
    let low: u128 = (from as u128) * ((steps - step) as u128);
    let high: u128 = (to as u128) * (step as u128);
    ((low + high) / (steps as u128)) as u8
}

/// Blends two colours for column `step` of a bar of `steps` columns.
pub fn interpolate_color(start: Color, end: Color, step: usize, steps: usize) -> (mixed: Color)
    requires
        step < steps,
    ensures
        mixed == blend(start, end, step as nat, steps as nat),
{
    match (start, end) {
        (Color::Rgb(r1, g1, b1), Color::Rgb(r2, g2, b2)) => Color::Rgb(
            blend_byte(r1, r2, step, steps),
            blend_byte(g1, g2, step, steps),
            blend_byte(b1, b2, step, steps),
        ),
        _ => start,
    }
}

/// The glyph of every column of the gradient bar.
pub const GRADIENT_GLYPH: char = '█';

/// The glyph of a filled column of the grainy bar.
pub const GRAINY_FILLED: char = '▓';

/// The glyph of an empty column of the grainy bar.
pub const GRAINY_EMPTY: char = '░';

/// The glyph of a filled column of the analog bar.
pub const ANALOG_FILLED: char = '║';

/// The glyph of an empty column of the analog bar.
pub const ANALOG_EMPTY: char = '│';

/// The glyph of the pointer on the bar.
pub const POINTER_GLYPH: char = '┃';

/// The glyph of a marker on the bar.
pub const MARKER_GLYPH: char = '│';

/// What a column of the bar shows before any overlay: the first `filled`
/// columns are filled, the others empty, each in the glyph and colour of the
/// bar style. A filled column of the gradient takes the colour blended at
/// `column / width`.
pub open spec fn base_cell(
    bar: ProgressBarStyle,
    colors: ColorScheme,
    column: nat,
    width: nat,
    filled: nat,
) -> Cell {
    match bar {
        ProgressBarStyle::Gradient => if column < filled {
            Cell {
                glyph: GRADIENT_GLYPH,
                style: CellStyle::colored(
                    blend(colors.progress_start, colors.progress_end, column, width),
                ),
            }
        } else {
            Cell { glyph: GRADIENT_GLYPH, style: CellStyle::colored(colors.progress_empty) }
        },
        ProgressBarStyle::Grainy => if column < filled {
            Cell { glyph: GRAINY_FILLED, style: CellStyle::colored(colors.progress_end) }
        } else {
            Cell { glyph: GRAINY_EMPTY, style: CellStyle::colored(colors.progress_empty) }
        },
        ProgressBarStyle::Analog => if column < filled {
            Cell { glyph: ANALOG_FILLED, style: CellStyle::colored(colors.progress_end) }
        } else {
            Cell { glyph: ANALOG_EMPTY, style: CellStyle::colored(colors.progress_empty) }
        },
    }
}

/// What a column of the bar shows. The pointer's column shows the pointer,
/// whatever else falls on it; the column of the wake-up or the bed time shows
/// a marker; every other column shows its base cell.
pub open spec fn bar_cell(
    bar: ProgressBarStyle,
    colors: ColorScheme,
    column: nat,
    width: nat,
    filled: nat,
    pointer: nat,
    wake: nat,
    bed: nat,
) -> Cell {
    if column == pointer {
        Cell { glyph: POINTER_GLYPH, style: CellStyle::strong(colors.progress_indicator) }
    } else if column == wake || column == bed {
        Cell { glyph: MARKER_GLYPH, style: CellStyle::strong(colors.marker) }
    } else {
        base_cell(bar, colors, column, width, filled)
    }
}

/// The whole bar, column by column.
pub open spec fn bar_cells(
    bar: ProgressBarStyle,
    colors: ColorScheme,
    width: nat,
    filled: nat,
    pointer: nat,
    wake: nat,
    bed: nat,
) -> Seq<Cell> {
    Seq::new(
        width,
        |column: int| bar_cell(bar, colors, column as nat, width, filled, pointer, wake, bed),
    )
}

/// Styles every column of the bar: the base cell of the bar style, then the
/// overlays.
pub fn bar_row(
    bar: ProgressBarStyle,
    colors: &ColorScheme,
    width: usize,
    filled: usize,
    pointer: usize,
    wake: usize,
    bed: usize,
) -> (row: Vec<Cell>)
    ensures
        row@ == bar_cells(
            bar,
            *colors,
            width as nat,
            filled as nat,
            pointer as nat,
            wake as nat,
            bed as nat,
        ),
{
    let mut row: Vec<Cell> = Vec::new();
    let mut column: usize = 0;
    while column < width
        invariant
            column <= width,
            row@.len() == column,
            forall|k: int|
                0 <= k < column ==> row@[k] == bar_cell(
                    bar,
                    *colors,
                    k as nat,
                    width as nat,
                    filled as nat,
                    pointer as nat,
                    wake as nat,
                    bed as nat,
                ),
        decreases width - column,
    {
        let cell = if column == pointer {
            Cell { glyph: POINTER_GLYPH, style: CellStyle::bold_fg(colors.progress_indicator) }
        } else if column == wake || column == bed {
            Cell { glyph: MARKER_GLYPH, style: CellStyle::bold_fg(colors.marker) }
        } else {
            match bar {
                ProgressBarStyle::Gradient => if column < filled {
                    let color = interpolate_color(
                        colors.progress_start,
                        colors.progress_end,
                        column,
                        width,
                    );
                    Cell { glyph: GRADIENT_GLYPH, style: CellStyle::fg(color) }
                } else {
                    Cell { glyph: GRADIENT_GLYPH, style: CellStyle::fg(colors.progress_empty) }
                },
                ProgressBarStyle::Grainy => if column < filled {
                    Cell { glyph: GRAINY_FILLED, style: CellStyle::fg(colors.progress_end) }
                } else {
                    Cell { glyph: GRAINY_EMPTY, style: CellStyle::fg(colors.progress_empty) }
                },
                ProgressBarStyle::Analog => if column < filled {
                    Cell { glyph: ANALOG_FILLED, style: CellStyle::fg(colors.progress_end) }
                } else {
                    Cell { glyph: ANALOG_EMPTY, style: CellStyle::fg(colors.progress_empty) }
                },
            }
        };
        row.push(cell);
        column += 1;
    }
    row
}

/// The cell that shows character `k` of a text in one style.
pub open spec fn styled_cell(text: Seq<char>, style: CellStyle, k: int) -> Cell {
    Cell { glyph: text[k], style }
}

/// The cells that a text in one style covers.
pub open spec fn styled(text: Seq<char>, style: CellStyle) -> Seq<Cell> {
    Seq::new(text.len(), |k: int| styled_cell(text, style, k))
}

/// The cells that a list of runs covers, from left to right.
pub open spec fn cells_of(runs: Seq<Span>) -> Seq<Cell>
    decreases runs.len(),
{
    if runs.len() == 0 {
        Seq::empty()
    } else {
        cells_of(runs.drop_last()) + styled(runs.last().text@, runs.last().style)
    }
}

/// No run is empty, and no run has the style of the run before it: the list
/// cannot be made shorter without changing what it shows.
pub open spec fn is_minimal(runs: Seq<Span>) -> bool {
    &&& forall|k: int| 0 <= k < runs.len() ==> (#[trigger] runs[k]).text@.len() > 0
    &&& forall|k: int| 0 < k < runs.len() ==> (#[trigger] runs[k]).style != runs[k - 1].style
}

/// Appending a run appends its cells.
pub proof fn lemma_cells_of_push(runs: Seq<Span>, run: Span)
    ensures
        cells_of(runs.push(run)) == cells_of(runs) + styled(run.text@, run.style),
{
    assert(runs.push(run).drop_last() =~= runs);
}

/// Merges a row of styled cells into runs: neighbouring cells of the same
/// style share a run, and a new run starts wherever the style changes.
pub fn merge_runs(row: &Vec<Cell>) -> (runs: Vec<Span>)
    ensures
        cells_of(runs@) == row@,
        is_minimal(runs@),
{
    let mut runs: Vec<Span> = Vec::new();
    if row.len() == 0 {
        assert(row@ =~= Seq::empty());
        return runs;
    }
    let mut text = String::new();
    let mut style = row[0].style;
    push_char(&mut text, row[0].glyph);
    assert(styled(text@, style) =~= row@.take(1));
    let mut next: usize = 1;
    while next < row.len()
        invariant
            1 <= next <= row.len(),
            cells_of(runs@) + styled(text@, style) == row@.take(next as int),
            text@.len() > 0,
            is_minimal(runs@),
            runs@.len() > 0 ==> runs@.last().style != style,
        decreases row.len() - next,
    {
        let cell = row[next];
        let ghost before = cells_of(runs@) + styled(text@, style);
        if !cell.style.same(&style) {
            proof {
                lemma_cells_of_push(runs@, (Span { text, style }));
            }
            runs.push(Span { text, style });
            text = String::new();
            style = cell.style;
            assert(styled(text@, style) =~= Seq::empty());
            assert(cells_of(runs@) + styled(text@, style) =~= before);
        }
        let ghost shorter = text@;
        push_char(&mut text, cell.glyph);
        assert(styled(text@, style) =~= styled(shorter, style).push(cell));
        assert(row@.take(next + 1) =~= row@.take(next as int).push(cell));
        assert(cells_of(runs@) + styled(text@, style) =~= before.push(cell));
        next += 1;
    }
    proof {
        lemma_cells_of_push(runs@, (Span { text, style }));
        assert(row@.take(row@.len() as int) =~= row@);
    }
    runs.push(Span { text, style });
    runs
}


} // verus!
