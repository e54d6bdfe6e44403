//! The frame: everything that is shown for a state at a moment of the day,
//! row by row, as runs of styled text.

use vstd::prelude::*;
use vstd::string::*;
use crate::clock::{clock_text_of, format_time, parse_time, seconds_of};
use crate::compositor::{
    bar_cells, bar_row, cells_of, is_minimal, merge_runs, Cell, CellStyle, Span,
};
use crate::markers::{
    chronological, chronological_order, lemma_marker_cells_width, marker_cells, marker_row, views,
    Marker, MarkerRow, MarkerView,
};
use crate::placement::{blank_cells, blank_row, place_text, placed};
use crate::state::{AppState, AppStateView, InputMode};
use crate::theme::{Color, ColorScheme};
use crate::timeline::{column_at, column_of, filled_width, scaled};

verus! {

/// The title of the screen.
pub const TITLE: &'static str = "TIME IS FLEETING";

/// The mark above the bar that points at the current time.
pub const POINTER_MARK: &'static str = "▼";

/// The name of the wake-up marker, with the key that edits it.
pub const WAKE_LABEL: &'static str = "Wake Up [w]";

/// The name of the noon marker.
pub const NOON_LABEL: &'static str = "Noon";

/// The time of the noon marker, as it is shown.
pub const NOON_TIME: &'static str = "12:00";

/// The name of the bed-time marker, with the key that edits it.
pub const BED_LABEL: &'static str = "Sleep [b]";

/// Noon, in seconds since midnight.
pub const NOON_SECONDS: u64 = 43200;

impl AppStateView {
    /// The colours that are shown: those of the current theme in the current
    /// mode.
    pub open spec fn colors(self) -> ColorScheme {
        self.themes[self.current_theme_index as int].colors(self.theme_mode)
    }
}

/// Whether a list of runs shows a row of cells, in as few runs as can be.
pub open spec fn shows(runs: Seq<Span>, cells: Seq<Cell>) -> bool {
    cells_of(runs) == cells && is_minimal(runs)
}

/// The row above the pointer: the current time as `HH:MM`, centred on the
/// column of the current time, in bold.
pub open spec fn time_cells(colors: ColorScheme, now: nat, width: nat) -> Seq<Cell> {
    placed(
        blank_cells(width, CellStyle::strong(colors.foreground)),
        column_at(now, width),
        clock_text_of(now),
        CellStyle::strong(colors.foreground),
    )
}

/// The row of the pointer: its mark in the column of the current time.
pub open spec fn pointer_cells(colors: ColorScheme, now: nat, width: nat) -> Seq<Cell> {
    placed(
        blank_cells(width, CellStyle::strong(colors.foreground)),
        column_at(now, width),
        POINTER_MARK@,
        CellStyle::strong(colors.foreground),
    )
}

/// The row that shows the current time above the bar.
pub fn time_row(colors: &ColorScheme, now_seconds: u32, width: usize) -> (runs: Vec<Span>)
    requires
        width >= 1,
    ensures
        shows(runs@, time_cells(*colors, now_seconds as nat, width as nat)),
{
    let style = CellStyle::bold_fg(colors.foreground);
    let mut row = blank_row(width, style);
    let text = format_time(now_seconds as u64);
    place_text(&mut row, column_of(now_seconds as u64, width), text.as_str(), style);
    merge_runs(&row)
}

/// The row that shows the pointer above the bar.
pub fn pointer_row(colors: &ColorScheme, now_seconds: u32, width: usize) -> (runs: Vec<Span>)
    requires
        width >= 1,
    ensures
        shows(runs@, pointer_cells(*colors, now_seconds as nat, width as nat)),
{
    let style = CellStyle::bold_fg(colors.foreground);
    let mut row = blank_row(width, style);
    place_text(&mut row, column_of(now_seconds as u64, width), POINTER_MARK, style);
    merge_runs(&row)
}

/// The style of a marker's time: bold yellow while it is being typed, and
/// the marker colour otherwise.
pub open spec fn time_style(editing: bool, colors: ColorScheme) -> CellStyle {
    if editing {
        CellStyle::strong(Color::Yellow)
    } else {
        CellStyle::colored(colors.marker)
    }
}

/// The marker of a time of the schedule. It stands at the stored time. Its
/// time reads as what is being typed while it is edited, and as the stored
/// time in `HH:MM` otherwise.
pub open spec fn schedule_marker(
    stored: Seq<char>,
    editing: bool,
    typed: Seq<char>,
    name: Seq<char>,
    colors: ColorScheme,
) -> MarkerView {
    MarkerView {
        seconds: seconds_of(stored),
        time_label: if editing {
            typed
        } else {
            clock_text_of(seconds_of(stored))
        },
        name_label: name,
        style: time_style(editing, colors),
    }
}

/// The marker of noon.
pub open spec fn noon_marker(colors: ColorScheme) -> MarkerView {
    MarkerView {
        seconds: NOON_SECONDS as nat,
        time_label: NOON_TIME@,
        name_label: NOON_LABEL@,
        style: CellStyle::colored(colors.marker),
    }
}

/// The markers of the day: waking up, noon, going to bed.
pub open spec fn day_markers(state: AppStateView) -> Seq<MarkerView> {
    seq![
        schedule_marker(
            state.config.wake_up_time,
            state.input_mode == InputMode::EditingWakeUp,
            state.input_buffer,
            WAKE_LABEL@,
            state.colors(),
        ),
        noon_marker(state.colors()),
        schedule_marker(
            state.config.bed_time,
            state.input_mode == InputMode::EditingBedTime,
            state.input_buffer,
            BED_LABEL@,
            state.colors(),
        ),
    ]
}

fn make_schedule_marker(
    stored: &str,
    editing: bool,
    typed: &String,
    name: &str,
    colors: &ColorScheme,
) -> (marker: Marker)
    ensures
        marker@ =~= schedule_marker(stored@, editing, typed@, name@, *colors),
{
    let seconds = parse_time(stored);
    let time_label = if editing {
        typed.clone()
    } else {
        format_time(seconds)
    };
    let style = if editing {
        CellStyle::bold_fg(Color::Yellow)
    } else {
        CellStyle::fg(colors.marker)
    };
    Marker { seconds, time_label, name_label: String::from_str(name), style }
}

/// The markers of the day for a state.
pub fn markers_of(state: &AppState) -> (markers: Vec<Marker>)
    requires
        state.wf(),
    ensures
        views(markers@) =~= day_markers(state@),
{
    let colors = state.get_colors();
    let mut markers: Vec<Marker> = Vec::new();
    markers.push(
        make_schedule_marker(
            state.config.wake_up_time.as_str(),
            state.input_mode == InputMode::EditingWakeUp,
            &state.input_buffer,
            WAKE_LABEL,
            colors,
        ),
    );
    markers.push(
        Marker {
            seconds: NOON_SECONDS,
            time_label: String::from_str(NOON_TIME),
            name_label: String::from_str(NOON_LABEL),
            style: CellStyle::fg(colors.marker),
        },
    );
    markers.push(
        make_schedule_marker(
            state.config.bed_time.as_str(),
            state.input_mode == InputMode::EditingBedTime,
            &state.input_buffer,
            BED_LABEL,
            colors,
        ),
    );
    markers
}

/// The bar of a state at a moment: filled up to the share of the day that
/// has passed, with the pointer at the current time and a marker at each of
/// the two times of the schedule.
pub open spec fn meter_cells(state: AppStateView, now: nat, width: nat) -> Seq<Cell> {
    bar_cells(
        state.progress_bar_style,
        state.colors(),
        width,
        scaled(now, width),
        column_at(now, width),
        column_at(seconds_of(state.config.wake_up_time), width),
        column_at(seconds_of(state.config.bed_time), width),
    )
}

/// The bar of a state at a moment, as runs.
pub fn meter_bar(state: &AppState, now_seconds: u32, width: usize) -> (runs: Vec<Span>)
    requires
        state.wf(),
        now_seconds < 86400,
        width >= 1,
    ensures
        shows(runs@, meter_cells(state@, now_seconds as nat, width as nat)),
{
    let row = bar_row(
        state.progress_bar_style,
        state.get_colors(),
        width,
        filled_width(now_seconds, width),
        column_of(now_seconds as u64, width),
        column_of(state.get_wake_up_seconds(), width),
        column_of(state.get_bed_seconds(), width),
    );
    merge_runs(&row)
}

/// One of the rows under the bar for a state: the markers of the day,
/// written in the order of their times.
pub open spec fn schedule_cells(state: AppStateView, row: MarkerRow, width: nat) -> Seq<Cell> {
    marker_cells(
        day_markers(state),
        chronological(day_markers(state), day_markers(state).len()),
        row,
        width,
        state.colors(),
    )
}

/// One of the rows under the bar, as runs.
pub fn schedule_row(state: &AppState, row: MarkerRow, width: usize) -> (runs: Vec<Span>)
    requires
        state.wf(),
        width >= 1,
    ensures
        shows(runs@, schedule_cells(state@, row, width as nat)),
{
    let markers = markers_of(state);
    let order = chronological_order(&markers);
    let cells = marker_row(&markers, &order, row, width, state.get_colors());
    merge_runs(&cells)
}

/// What a span holds, as plain text and a style.
#[verifier::ext_equal]
pub struct SpanView {
    pub text: Seq<char>,
    pub style: CellStyle,
}

impl View for Span {
    type V = SpanView;

    open spec fn view(&self) -> SpanView {
        SpanView { text: self.text@, style: self.style }
    }
}

/// Whether a line, where there is one, holds what is to be shown.
pub open spec fn holds(line: Option<Span>, shown: Option<SpanView>) -> bool {
    match shown {
        Some(span) => line.is_some() && line.unwrap()@ =~= span,
        None => line.is_none(),
    }
}

/// What the line at the bottom of the screen says while a time is typed.
pub const PROMPT: &'static str = "Enter time (HH:MM) | Enter to confirm | Esc to cancel";

/// What stands before the message of an error on that line.
pub const ERROR_PREFIX: &'static str = "❌ Error: ";

/// What stands after the message of an error on that line.
pub const ERROR_SUFFIX: &'static str = " | Esc to cancel";

/// The line at the bottom of the screen. While a time is typed it says how
/// to go on, in bold yellow, or what was wrong with the time last entered,
/// in bold red. At other times there is none.
pub open spec fn status_of(state: AppStateView) -> Option<SpanView> {
    if state.input_mode == InputMode::EditingWakeUp || state.input_mode
        == InputMode::EditingBedTime {
        Some(
            match state.error_message {
                Some(error) => SpanView {
                    text: ERROR_PREFIX@ + error.message_text() + ERROR_SUFFIX@,
                    style: CellStyle::strong(Color::Red),
                },
                None => SpanView { text: PROMPT@, style: CellStyle::strong(Color::Yellow) },
            },
        )
    } else {
        None
    }
}

/// The line at the bottom of the screen.
pub fn status_line(state: &AppState) -> (line: Option<Span>)
    ensures
        holds(line, status_of(state@)),
{
    match state.input_mode {
        InputMode::EditingWakeUp | InputMode::EditingBedTime => match state.error_message {
            Some(error) => {
                let message = error.message();
                let text = String::from_str(ERROR_PREFIX).concat(message.as_str()).concat(
                    ERROR_SUFFIX,
                );
                Some(Span { text, style: CellStyle::bold_fg(Color::Red) })
            },
            None => Some(
                Span { text: String::from_str(PROMPT), style: CellStyle::bold_fg(Color::Yellow) },
            ),
        },
        _ => None,
    }
}

/// A saying and who said it.
#[derive(Clone, Debug, PartialEq, Eq)]
pub struct Quote {
    pub text: String,
    pub author: String,
}

/// The place in a list of `count` sayings of the one for the hour of a
/// moment: the hour, counted round the list.
pub open spec fn quote_index(now: nat, count: nat) -> nat {
    (now / 3600) % count
}

/// How a saying is shown: in quotation marks, and on the next line, after a
/// tilde, who said it.
pub open spec fn quote_text(text: Seq<char>, author: Seq<char>) -> Seq<char> {
    "\""@ + text + "\"\n~ "@ + author
}

/// The saying that is shown at a moment, in italics. There is none where the
/// list is empty.
pub open spec fn quote_of(quotes: Seq<Quote>, now: nat, colors: ColorScheme) -> Option<SpanView> {
    if quotes.len() == 0 {
        None
    } else {
        let quote = quotes[quote_index(now, quotes.len()) as int];
        Some(
            SpanView {
                text: quote_text(quote.text@, quote.author@),
                style: CellStyle::slanted(colors.quote),
            },
        )
    }
}

/// The saying that is shown at a moment.
pub fn quote_line(quotes: &Vec<Quote>, now_seconds: u32, colors: &ColorScheme) -> (line: Option<
    Span,
>)
    ensures
        holds(line, quote_of(quotes@, now_seconds as nat, *colors)),
{
    if quotes.len() == 0 {
        return None;
    }
    let hour = (now_seconds / 3600) as usize;
    let quote = &quotes[hour % quotes.len()];
    let text = String::from_str("\"").concat(quote.text.as_str()).concat("\"\n~ ").concat(
        quote.author.as_str(),
    );
    Some(Span { text, style: CellStyle::italic_fg(colors.quote) })
}

/// The label of the time that has passed.
pub const ELAPSED_LABEL: &'static str = "● Elapsed:   ";

/// The label of the time that is left.
pub const REMAINING_LABEL: &'static str = "○ Remaining: ";

/// A line of the legend: a label in bold, and a length of time as `HH:MM`.
pub open spec fn is_legend_line(
    line: Seq<Span>,
    label: Seq<char>,
    color: Color,
    seconds: nat,
) -> bool {
    &&& line.len() == 2
    &&& line[0]@ =~= SpanView { text: label, style: CellStyle::strong(color) }
    &&& line[1]@ =~= SpanView { text: clock_text_of(seconds), style: CellStyle::plain_spec() }
}

fn legend_line(label: &str, color: Color, seconds: u32) -> (line: Vec<Span>)
    ensures
        is_legend_line(line@, label@, color, seconds as nat),
{
    let mut line: Vec<Span> = Vec::new();
    line.push(Span { text: String::from_str(label), style: CellStyle::bold_fg(color) });
    line.push(Span { text: format_time(seconds as u64), style: CellStyle::plain() });
    line
}

/// The time of the day that has passed at a moment.
pub fn elapsed_line(now_seconds: u32, colors: &ColorScheme) -> (line: Vec<Span>)
    ensures
        is_legend_line(line@, ELAPSED_LABEL@, colors.legend_elapsed, now_seconds as nat),
{
    legend_line(ELAPSED_LABEL, colors.legend_elapsed, now_seconds)
}

/// The time of the day that is left at a moment.
pub fn remaining_line(now_seconds: u32, colors: &ColorScheme) -> (line: Vec<Span>)
    requires
        now_seconds < 86400,
    ensures
        is_legend_line(
            line@,
            REMAINING_LABEL@,
            colors.legend_remaining,
            (86400 - now_seconds) as nat,
        ),
{
    legend_line(REMAINING_LABEL, colors.legend_remaining, 86400 - now_seconds)
}

/// How many lines the help screen has.
pub const HELP_LINES: usize = 17;

/// A line of the help screen.
pub open spec fn help_line(index: int) -> Seq<char> {
    if index == 0 {
        " "@
    } else if index == 1 {
        "┌───────────────────── HELP ─────────────────────┐"@
    } else if index == 2 {
        "│                                                │"@
    } else if index == 3 {
        "│  [h]     Toggle this help screen               │"@
    } else if index == 4 {
        "│  [q]     Quit application                      │"@
    } else if index == 5 {
        "│                                                │"@
    } else if index == 6 {
        "│  [t]     Cycle themes                          │"@
    } else if index == 7 {
        "│  [d]     Toggle dark/light mode                │"@
    } else if index == 8 {
        "│  [s]     Cycle progress bar style              │"@
    } else if index == 9 {
        "│                                                │"@
    } else if index == 10 {
        "│  [w]     Edit wake up time                     │"@
    } else if index == 11 {
        "│  [b]     Edit bed time                         │"@
    } else if index == 12 {
        "│  [?]     Open documentation                    │"@
    } else if index == 13 {
        "│                                                │"@
    } else if index == 14 {
        "│  Press [h], [q], or [Esc] to close             │"@
    } else if index == 15 {
        "│                                                │"@
    } else if index == 16 {
        "└────────────────────────────────────────────────┘"@
    } else {
        Seq::empty()
    }
}

/// The lines of the help screen.
pub fn help_text() -> (lines: Vec<String>)
    ensures
        lines@.len() == HELP_LINES,
        forall|index: int|
            0 <= index < lines@.len() ==> (#[trigger] lines@[index])@ == help_line(index),
{
    let mut lines: Vec<String> = Vec::new();
    lines.push(String::from_str(" "));
    lines.push(String::from_str("┌───────────────────── HELP ─────────────────────┐"));
    lines.push(String::from_str("│                                                │"));
    lines.push(String::from_str("│  [h]     Toggle this help screen               │"));
    lines.push(String::from_str("│  [q]     Quit application                      │"));
    lines.push(String::from_str("│                                                │"));
    lines.push(String::from_str("│  [t]     Cycle themes                          │"));
    lines.push(String::from_str("│  [d]     Toggle dark/light mode                │"));
    lines.push(String::from_str("│  [s]     Cycle progress bar style              │"));
    lines.push(String::from_str("│                                                │"));
    lines.push(String::from_str("│  [w]     Edit wake up time                     │"));
    lines.push(String::from_str("│  [b]     Edit bed time                         │"));
    lines.push(String::from_str("│  [?]     Open documentation                    │"));
    lines.push(String::from_str("│                                                │"));
    lines.push(String::from_str("│  Press [h], [q], or [Esc] to close             │"));
    lines.push(String::from_str("│                                                │"));
    lines.push(String::from_str("└────────────────────────────────────────────────┘"));
    lines
}

/// The rows of the meter and what stands around them.
#[derive(Clone, Debug, PartialEq, Eq)]
pub struct MeterFrame {
    /// The current time, above the pointer.
    pub time_line: Vec<Span>,
    /// The pointer, above the bar.
    pub pointer_line: Vec<Span>,
    /// One line of the bar; every line of the bar is the same.
    pub bar: Vec<Span>,
    /// The ticks under the bar.
    pub ticks: Vec<Span>,
    /// The times of the markers.
    pub times: Vec<Span>,
    /// The names of the markers.
    pub labels: Vec<Span>,
    /// The line at the bottom of the screen, while a time is typed.
    pub status: Option<Span>,
    /// The saying of the hour.
    pub quote: Option<Span>,
    /// The legend's line of the time that has passed.
    pub elapsed: Vec<Span>,
    /// The legend's line of the time that is left.
    pub remaining: Vec<Span>,
}

/// What is shown on the screen.
#[derive(Clone, Debug, PartialEq, Eq)]
pub enum Frame {
    /// The help screen, in one style.
    Help { lines: Vec<String>, style: CellStyle },
    /// A screen too narrow for the meter: the title and nothing else.
    Narrow { title: Span },
    /// The title and the meter.
    Meter { title: Span, meter: MeterFrame },
}

/// The title in the colours of a scheme.
pub open spec fn title_of(colors: ColorScheme) -> SpanView {
    SpanView { text: TITLE@, style: CellStyle::strong(colors.title) }
}

/// Whether the rows of a meter are those of a state at a moment of the day,
/// on a bar of `width` columns.
pub open spec fn is_meter_of(
    meter: MeterFrame,
    state: AppStateView,
    now: nat,
    width: nat,
    quotes: Seq<Quote>,
) -> bool {
    &&& shows(meter.time_line@, time_cells(state.colors(), now, width))
    &&& shows(meter.pointer_line@, pointer_cells(state.colors(), now, width))
    &&& shows(meter.bar@, meter_cells(state, now, width))
    &&& shows(meter.ticks@, schedule_cells(state, MarkerRow::Ticks, width))
    &&& shows(meter.times@, schedule_cells(state, MarkerRow::Times, width))
    &&& shows(meter.labels@, schedule_cells(state, MarkerRow::Labels, width))
    &&& holds(meter.status, status_of(state))
    &&& holds(meter.quote, quote_of(quotes, now, state.colors()))
    &&& is_legend_line(meter.elapsed@, ELAPSED_LABEL@, state.colors().legend_elapsed, now)
    &&& is_legend_line(
        meter.remaining@,
        REMAINING_LABEL@,
        state.colors().legend_remaining,
        (86400 - now) as nat,
    )
}

/// Whether a frame is what is shown for a state at a moment of the day on a
/// screen of `width` columns: the help screen while help is asked for; the
/// title alone on a screen of fewer than two columns; and the title with the
/// meter otherwise.
pub open spec fn is_frame_of(
    frame: Frame,
    state: AppStateView,
    now: nat,
    width: nat,
    quotes: Seq<Quote>,
) -> bool {
    if state.input_mode == InputMode::Help {
        &&& frame matches Frame::Help { lines, style }
        &&& style == CellStyle::colored(state.colors().foreground)
        &&& lines@.len() == HELP_LINES
        &&& forall|index: int|
            0 <= index < lines@.len() ==> (#[trigger] lines@[index])@ == help_line(index)
    } else if width < 2 {
        &&& frame matches Frame::Narrow { title }
        &&& title@ =~= title_of(state.colors())
    } else {
        &&& frame matches Frame::Meter { title, meter }
        &&& title@ =~= title_of(state.colors())
        &&& is_meter_of(meter, state, now, width, quotes)
    }
}

/// Every row of the meter is as wide as the bar.
pub proof fn lemma_rows_span_the_width(state: AppStateView, now: nat, width: nat, row: MarkerRow)
    ensures
        time_cells(state.colors(), now, width).len() == width,
        pointer_cells(state.colors(), now, width).len() == width,
        meter_cells(state, now, width).len() == width,
        schedule_cells(state, row, width).len() == width,
{
    lemma_marker_cells_width(
        day_markers(state),
        chronological(day_markers(state), day_markers(state).len()),
        row,
        width,
        state.colors(),
    );
}

/// Composes what is shown for a state, `now_seconds` after midnight, on a
/// screen of `width` columns, with the saying of the hour taken from
/// `quotes`.
pub fn render(state: &AppState, now_seconds: u32, width: usize, quotes: &Vec<Quote>) -> (frame:
    Frame)
    requires
        state.wf(),
        now_seconds < 86400,
    ensures
        is_frame_of(frame, state@, now_seconds as nat, width as nat, quotes@),
{
    let colors = state.get_colors();
    if state.input_mode == InputMode::Help {
        return Frame::Help { lines: help_text(), style: CellStyle::fg(colors.foreground) };
    }
    let title = Span { text: String::from_str(TITLE), style: CellStyle::bold_fg(colors.title) };
    if width < 2 {
        return Frame::Narrow { title };
    }
    let meter = MeterFrame {
        time_line: time_row(colors, now_seconds, width),
        pointer_line: pointer_row(colors, now_seconds, width),
        bar: meter_bar(state, now_seconds, width),
        ticks: schedule_row(state, MarkerRow::Ticks, width),
        times: schedule_row(state, MarkerRow::Times, width),
        labels: schedule_row(state, MarkerRow::Labels, width),
        status: status_line(state),
        quote: quote_line(quotes, now_seconds, colors),
        elapsed: elapsed_line(now_seconds, colors),
        remaining: remaining_line(now_seconds, colors),
    };
    Frame::Meter { title, meter }
}

} // verus!
