//! The markers of the day: their order in time, and the three rows that show
//! them under the bar.

use vstd::prelude::*;
use crate::compositor::{Cell, CellStyle};
use crate::placement::{blank_cells, blank_row, place_text, placed};
use crate::theme::ColorScheme;
use crate::timeline::{column_at, column_of};

verus! {

/// A point of the day that is marked under the bar.
#[derive(Clone, Debug, PartialEq, Eq)]
pub struct Marker {
    /// Seconds since midnight.
    pub seconds: u64,
    /// The time, as it is shown.
    pub time_label: String,
    /// What the marker is called.
    pub name_label: String,
    /// The style of the time.
    pub style: CellStyle,
}

/// What a marker holds, as plain text and values.
#[verifier::ext_equal]
pub struct MarkerView {
    pub seconds: nat,
    pub time_label: Seq<char>,
    pub name_label: Seq<char>,
    pub style: CellStyle,
}

impl View for Marker {
    type V = MarkerView;

    open spec fn view(&self) -> MarkerView {
        MarkerView {
            seconds: self.seconds as nat,
            time_label: self.time_label@,
            name_label: self.name_label@,
            style: self.style,
        }
    }
}

/// What a list of markers holds.
pub open spec fn views(markers: Seq<Marker>) -> Seq<MarkerView> {
    Seq::new(markers.len(), |k: int| markers[k]@)
}

/// The glyph of a tick, as a text.
pub const TICK: &'static str = "│";

/// Whether marker `a` is placed before marker `b`: the earlier one first,
/// and of two at the same time the one that stands first in the list.
pub open spec fn comes_before(markers: Seq<MarkerView>, a: int, b: int) -> bool {
    markers[a].seconds < markers[b].seconds || (markers[a].seconds == markers[b].seconds && a < b)
}

/// Whether `order` lists the places of the first `order.len()` markers, each
/// once, in the order of their times.
pub open spec fn is_chronological(order: Seq<usize>, markers: Seq<MarkerView>) -> bool {
    &&& order.len() <= markers.len()
    &&& forall|i: int| 0 <= i < order.len() ==> (#[trigger] order[i]) < order.len()
    &&& forall|i: int, j: int|
        0 <= i < j < order.len() ==> comes_before(
            markers,
            (#[trigger] order[i]) as int,
            (#[trigger] order[j]) as int,
        )
}

/// Where in `order` a marker at `seconds` is put that stands later in the
/// list than all those in `order`: behind every marker that is not later
/// than it.
pub open spec fn slot(order: Seq<usize>, markers: Seq<MarkerView>, seconds: nat) -> nat
    decreases order.len(),
{
    if order.len() == 0 || markers[order.last() as int].seconds <= seconds {
        order.len()
    } else {
        slot(order.drop_last(), markers, seconds)
    }
}

/// The places of the first `count` markers in the order of their times, and
/// at the same time in the order of the list: each marker in turn is put in
/// its slot among those before it.
pub open spec fn chronological(markers: Seq<MarkerView>, count: nat) -> Seq<usize>
    decreases count,
{
    if count == 0 {
        Seq::empty()
    } else {
        let before = chronological(markers, (count - 1) as nat);
        before.insert(
            slot(before, markers, markers[count - 1].seconds) as int,
            (count - 1) as usize,
        )
    }
}

/// A slot lies within the list, after markers that are not later and before
/// markers that are.
pub proof fn lemma_slot(order: Seq<usize>, markers: Seq<MarkerView>, seconds: nat)
    ensures
        slot(order, markers, seconds) <= order.len(),
        forall|j: int|
            slot(order, markers, seconds) <= j < order.len() ==> markers[(
            #[trigger] order[j]) as int].seconds > seconds,
        slot(order, markers, seconds) > 0 ==> markers[order[slot(order, markers, seconds)
            - 1] as int].seconds <= seconds,
    decreases order.len(),
{
    if !(order.len() == 0 || markers[order.last() as int].seconds <= seconds) {
        let shorter = order.drop_last();
        lemma_slot(shorter, markers, seconds);
        assert forall|j: int| slot(order, markers, seconds) <= j < order.len() implies markers[(
        #[trigger] order[j]) as int].seconds > seconds by {
            if j < shorter.len() {
                assert(order[j] == shorter[j]);
            }
        }
    }
}

/// Putting the next marker in its slot keeps the order of times.
pub proof fn lemma_insert_keeps_order(order: Seq<usize>, markers: Seq<MarkerView>)
    requires
        is_chronological(order, markers),
        order.len() < markers.len(),
        order.len() <= usize::MAX,
    ensures
        is_chronological(
            order.insert(
                slot(order, markers, markers[order.len() as int].seconds) as int,
                order.len() as usize,
            ),
            markers,
        ),
{
    let next = order.len() as usize;
    let seconds = markers[next as int].seconds;
    let at = slot(order, markers, seconds) as int;
    let longer = order.insert(at, next);
    lemma_slot(order, markers, seconds);
    assert forall|i: int| 0 <= i < at implies markers[(#[trigger] order[i]) as int].seconds
        <= seconds by {
        if i < at - 1 {
            assert(comes_before(markers, order[i] as int, order[at - 1] as int));
        }
    }
    assert forall|i: int, j: int| 0 <= i < j < longer.len() implies comes_before(
        markers,
        (#[trigger] longer[i]) as int,
        (#[trigger] longer[j]) as int,
    ) by {
        if j < at {
            assert(longer[i] == order[i] && longer[j] == order[j]);
        } else if j == at {
            assert(longer[i] == order[i]);
        } else if i < at {
            assert(longer[i] == order[i] && longer[j] == order[j - 1]);
        } else if i == at {
            assert(longer[j] == order[j - 1]);
        } else {
            assert(longer[i] == order[i - 1] && longer[j] == order[j - 1]);
        }
    }
    assert forall|i: int| 0 <= i < longer.len() implies (#[trigger] longer[i]) < longer.len() by {
        if i < at {
            assert(longer[i] == order[i]);
        } else if i > at {
            assert(longer[i] == order[i - 1]);
        }
    }
}

/// The order of times lists every marker once, earlier markers before later
/// ones, and markers at the same time as they stand in the list.
pub proof fn lemma_chronological(markers: Seq<MarkerView>, count: nat)
    requires
        count <= markers.len(),
        count <= usize::MAX,
    ensures
        chronological(markers, count).len() == count,
        is_chronological(chronological(markers, count), markers),
    decreases count,
{
    if count > 0 {
        lemma_chronological(markers, (count - 1) as nat);
        let before = chronological(markers, (count - 1) as nat);
        lemma_slot(before, markers, markers[count - 1].seconds);
        lemma_insert_keeps_order(before, markers);
    }
}

/// The order in which markers are placed: by their times, and at the same
/// time by their places in the list.
pub fn chronological_order(markers: &Vec<Marker>) -> (order: Vec<usize>)
    ensures
        order@ == chronological(views(markers@), markers@.len()),
        order@.len() == markers@.len(),
        is_chronological(order@, views(markers@)),
{
    let ghost all = views(markers@);
    let mut order: Vec<usize> = Vec::new();
    let mut next: usize = 0;
    while next < markers.len()
        invariant
            next <= markers@.len(),
            all == views(markers@),
            order@ == chronological(all, next as nat),
            order@.len() == next,
        decreases markers@.len() - next,
    {
        let seconds = markers[next].seconds;
        let mut at: usize = order.len();
        proof {
            lemma_chronological(all, next as nat);
            assert(order@.take(at as int) =~= order@);
        }
        while at > 0 && markers[order[at - 1]].seconds > seconds
            invariant
                at <= order@.len(),
                all == views(markers@),
                is_chronological(order@, all),
                slot(order@, all, seconds as nat) == slot(
                    order@.take(at as int),
                    all,
                    seconds as nat,
                ),
            decreases at,
        {
            proof {
                let part = order@.take(at as int);
                assert(part.last() == order@[at - 1]);
                assert(all[order@[at - 1] as int] == markers@[order@[at - 1] as int]@);
                assert(part.drop_last() =~= order@.take(at - 1));
            }
            at -= 1;
        }
        proof {
            let part = order@.take(at as int);
            if at > 0 {
                assert(part.last() == order@[at - 1]);
                assert(all[order@[at - 1] as int] == markers@[order@[at - 1] as int]@);
            }
            assert(slot(part, all, seconds as nat) == at);
            assert(all[next as int] == markers@[next as int]@);
        }
        order.insert(at, next);
        next += 1;
    }
    proof {
        lemma_chronological(all, markers@.len());
    }
    order
}

/// The three rows under the bar.
#[derive(Clone, Copy, Debug, PartialEq, Eq, Structural)]
pub enum MarkerRow {
    /// A tick at each marker's column.
    Ticks,
    /// Each marker's time, centred on its column.
    Times,
    /// Each marker's name, centred on its column.
    Labels,
}

/// What a marker writes on a row.
pub open spec fn marker_text(marker: MarkerView, row: MarkerRow) -> Seq<char> {
    match row {
        MarkerRow::Ticks => TICK@,
        MarkerRow::Times => marker.time_label,
        MarkerRow::Labels => marker.name_label,
    }
}

/// The style of a row where no marker's time stands.
pub open spec fn row_style(row: MarkerRow, colors: ColorScheme) -> CellStyle {
    match row {
        MarkerRow::Ticks => CellStyle::colored(colors.marker),
        MarkerRow::Times => CellStyle::colored(colors.marker),
        MarkerRow::Labels => CellStyle::colored(colors.marker_label),
    }
}

/// The style in which a marker writes on a row: its own for its time, the
/// row's for its tick and its name.
pub open spec fn marker_style(
    marker: MarkerView,
    row: MarkerRow,
    colors: ColorScheme,
) -> CellStyle {
    match row {
        MarkerRow::Times => marker.style,
        _ => row_style(row, colors),
    }
}

/// A row of `width` columns after the markers listed in `order` have written
/// on it one after the other, each centred on the column of its time. Where
/// two of them meet, the later one in `order` is on top.
pub open spec fn marker_cells(
    markers: Seq<MarkerView>,
    order: Seq<usize>,
    row: MarkerRow,
    width: nat,
    colors: ColorScheme,
) -> Seq<Cell>
    decreases order.len(),
{
    if order.len() == 0 {
        blank_cells(width, row_style(row, colors))
    } else {
        let marker = markers[order.last() as int];
        placed(
            marker_cells(markers, order.drop_last(), row, width, colors),
            column_at(marker.seconds, width),
            marker_text(marker, row),
            marker_style(marker, row, colors),
        )
    }
}

/// A row keeps its width, whatever is written on it.
pub proof fn lemma_marker_cells_width(
    markers: Seq<MarkerView>,
    order: Seq<usize>,
    row: MarkerRow,
    width: nat,
    colors: ColorScheme,
)
    ensures
        marker_cells(markers, order, row, width, colors).len() == width,
    decreases order.len(),
{
    if order.len() > 0 {
        lemma_marker_cells_width(markers, order.drop_last(), row, width, colors);
    }
}

/// Writes the markers on one of the rows under the bar, in the order given.
pub fn marker_row(
    markers: &Vec<Marker>,
    order: &Vec<usize>,
    row: MarkerRow,
    width: usize,
    colors: &ColorScheme,
) -> (cells: Vec<Cell>)
    requires
        width >= 1,
        forall|i: int| 0 <= i < order@.len() ==> (#[trigger] order@[i]) < markers@.len(),
    ensures
        cells@ == marker_cells(views(markers@), order@, row, width as nat, *colors),
        cells@.len() == width,
{
    let ghost all = views(markers@);
    let base = match row {
        MarkerRow::Labels => CellStyle::fg(colors.marker_label),
        _ => CellStyle::fg(colors.marker),
    };
    let mut cells = blank_row(width, base);
    let mut next: usize = 0;
    assert(order@.take(0) =~= Seq::<usize>::empty());
    while next < order.len()
        invariant
            next <= order@.len(),
            width >= 1,
            all == views(markers@),
            base == row_style(row, *colors),
            forall|i: int| 0 <= i < order@.len() ==> (#[trigger] order@[i]) < markers@.len(),
            cells@ == marker_cells(all, order@.take(next as int), row, width as nat, *colors),
            cells@.len() == width,
        decreases order@.len() - next,
    {
        let marker = &markers[order[next]];
        let pos = column_of(marker.seconds, width);
        proof {
            let longer = order@.take(next + 1);
            assert(longer.drop_last() =~= order@.take(next as int));
            assert(longer.last() == order@[next as int]);
            assert(all[order@[next as int] as int] == marker@);
        }
        match row {
            MarkerRow::Ticks => place_text(&mut cells, pos, TICK, base),
            MarkerRow::Times => place_text(
                &mut cells,
                pos,
                marker.time_label.as_str(),
                marker.style,
            ),
            MarkerRow::Labels => place_text(&mut cells, pos, marker.name_label.as_str(), base),
        }
        next += 1;
    }
    assert(order@.take(order@.len() as int) =~= order@);
    cells
}

} // verus!
