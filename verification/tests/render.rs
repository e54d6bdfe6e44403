use t_meter::clock::ValidationError;
use t_meter::compositor::{CellStyle, Span};
use t_meter::config::{Config, ProgressBarStyle};
use t_meter::markers::MarkerRow;
use t_meter::render::{
    elapsed_line, help_text, markers_of, meter_bar, pointer_row, quote_line, remaining_line,
    render, schedule_row, status_line, time_row, Frame, MeterFrame, Quote,
};
use t_meter::state::{AppState, InputMode, Key, KeyPress};
use t_meter::theme::{get_default_theme, Color};

fn span(text: &str, style: CellStyle) -> Span {
    Span { text: text.to_string(), style }
}

fn quotes() -> Vec<Quote> {
    vec![
        Quote { text: "First".to_string(), author: "One".to_string() },
        Quote { text: "Second".to_string(), author: "Two".to_string() },
        Quote { text: "Third".to_string(), author: "Three".to_string() },
        Quote { text: "Fourth".to_string(), author: "Four".to_string() },
        Quote { text: "Fifth".to_string(), author: "Five".to_string() },
    ]
}

fn meter_of(frame: Frame) -> MeterFrame {
    match frame {
        Frame::Meter { meter, .. } => meter,
        other => panic!("no meter: {:?}", other),
    }
}

fn text_of(runs: &Vec<Span>) -> String {
    runs.iter().map(|run| run.text.as_str()).collect()
}

#[test]
fn noon_on_twenty_columns() {
    let state = AppState::new(Config::default());
    let frame = render(&state, 43200, 20, &quotes());
    let title = match &frame {
        Frame::Meter { title, .. } => title.clone(),
        other => panic!("no meter: {:?}", other),
    };
    assert_eq!(title, span("TIME IS FLEETING", CellStyle::bold_fg(Color::White)));
    let meter = meter_of(frame);
    let bold = CellStyle::bold_fg(Color::White);
    let white = CellStyle::fg(Color::White);
    let gray = CellStyle::fg(Color::DarkGray);
    assert_eq!(meter.time_line, vec![span("        12:00       ", bold)]);
    assert_eq!(meter.pointer_line, vec![span("          ▼         ", bold)]);
    assert_eq!(
        meter.bar,
        vec![
            span("║║║║║║", white),
            span("│", bold),
            span("║║║", white),
            span("┃", CellStyle::bold_fg(Color::Yellow)),
            span("││││││││", gray),
            span("│", bold),
        ]
    );
    assert_eq!(meter.ticks, vec![span("      │   │        │", white)]);
    assert_eq!(meter.times, vec![span("    07:012:00  23:00", white)]);
    assert_eq!(meter.labels, vec![span(" Wake UpNooSleep [b]", white)]);
    assert_eq!(meter.status, None);
    assert_eq!(meter.quote, Some(span("\"Third\"\n~ Three", CellStyle::italic_fg(Color::Gray))));
    assert_eq!(meter.elapsed, vec![span("● Elapsed:   ", bold), span("12:00", CellStyle::plain())]);
    assert_eq!(
        meter.remaining,
        vec![span("○ Remaining: ", CellStyle::bold_fg(Color::DarkGray)), span("12:00", CellStyle::plain())]
    );
}

#[test]
fn the_pointer_covers_the_noon_column_of_the_bar() {
    let state = AppState::new(Config::default());
    let bar = meter_bar(&state, 43200, 20);
    let mut column = 0;
    let mut at_noon = None;
    for run in &bar {
        for glyph in run.text.chars() {
            if column == 10 {
                at_noon = Some((glyph, run.style));
            }
            column += 1;
        }
    }
    assert_eq!(column, 20);
    assert_eq!(at_noon, Some(('┃', CellStyle::bold_fg(Color::Yellow))));
    let ticks = text_of(&schedule_row(&state, MarkerRow::Ticks, 20));
    assert_eq!(ticks.chars().nth(10), Some('│'));
}

#[test]
fn every_row_is_as_wide_as_the_screen() {
    let mut state = AppState::new(Config::default());
    state.progress_bar_style = ProgressBarStyle::Gradient;
    state.current_theme_index = 1;
    for width in [2usize, 3, 5, 9, 20, 80, 133] {
        for now in [0u32, 1, 3599, 25200, 43199, 43200, 82800, 86399] {
            let meter = meter_of(render(&state, now, width, &quotes()));
            for row in [
                &meter.time_line,
                &meter.pointer_line,
                &meter.bar,
                &meter.ticks,
                &meter.times,
                &meter.labels,
            ] {
                assert_eq!(text_of(row).chars().count(), width);
                for pair in row.windows(2) {
                    assert_ne!(pair[0].style, pair[1].style);
                }
            }
        }
    }
}

#[test]
fn a_screen_of_one_column_shows_the_title_alone() {
    let state = AppState::new(Config::default());
    let title = span("TIME IS FLEETING", CellStyle::bold_fg(Color::White));
    assert_eq!(render(&state, 43200, 1, &quotes()), Frame::Narrow { title: title.clone() });
    assert_eq!(render(&state, 43200, 0, &quotes()), Frame::Narrow { title });
}

#[test]
fn two_columns_are_enough_for_the_meter() {
    let state = AppState::new(Config::default());
    let meter = meter_of(render(&state, 43200, 2, &quotes()));
    let bold = CellStyle::bold_fg(Color::White);
    assert_eq!(meter.time_line, vec![span("12", bold)]);
    assert_eq!(meter.pointer_line, vec![span(" ▼", bold)]);
    assert_eq!(
        meter.bar,
        vec![span("║", CellStyle::fg(Color::White)), span("┃", CellStyle::bold_fg(Color::Yellow))]
    );
    assert_eq!(text_of(&meter.labels), "Sl");
    assert_eq!(text_of(&meter.times), "23");
}

#[test]
fn the_help_screen_replaces_the_meter() {
    let mut state = AppState::new(Config::default());
    state.handle_key(KeyPress { key: Key::Char('h'), ctrl: false });
    let frame = render(&state, 43200, 80, &quotes());
    match frame {
        Frame::Help { lines, style } => {
            assert_eq!(style, CellStyle::fg(Color::White));
            assert_eq!(lines, help_text());
        }
        other => panic!("no help: {:?}", other),
    }
    assert_eq!(
        std::mem::discriminant(&render(&state, 0, 1, &quotes())),
        std::mem::discriminant(&Frame::Help { lines: Vec::new(), style: CellStyle::plain() })
    );
}

#[test]
fn the_help_screen_lists_the_keys() {
    let lines = help_text();
    assert_eq!(lines.len(), 17);
    assert_eq!(lines[0], " ");
    assert_eq!(lines[1], "┌───────────────────── HELP ─────────────────────┐");
    assert_eq!(lines[3], "│  [h]     Toggle this help screen               │");
    assert_eq!(lines[12], "│  [?]     Open documentation                    │");
    assert_eq!(lines[14], "│  Press [h], [q], or [Esc] to close             │");
    assert_eq!(lines[16], "└────────────────────────────────────────────────┘");
    for line in &lines[1..] {
        assert_eq!(line.chars().count(), 50);
    }
}

#[test]
fn the_time_follows_the_pointer() {
    let colors = get_default_theme().light;
    assert_eq!(text_of(&time_row(&colors, 0, 12)), "00:00       ");
    assert_eq!(text_of(&pointer_row(&colors, 0, 12)), "▼           ");
    assert_eq!(text_of(&time_row(&colors, 86399, 12)), "       23:59");
    assert_eq!(text_of(&pointer_row(&colors, 86399, 12)), "           ▼");
    assert_eq!(text_of(&time_row(&colors, 21600, 12)), " 06:00      ");
    assert_eq!(text_of(&pointer_row(&colors, 21600, 12)), "   ▼        ");
}

#[test]
fn the_markers_of_the_day_are_three() {
    let state = AppState::new(Config::default());
    let markers = markers_of(&state);
    let white = CellStyle::fg(Color::White);
    assert_eq!(markers.len(), 3);
    assert_eq!((markers[0].seconds, markers[0].time_label.as_str()), (25200, "07:00"));
    assert_eq!((markers[0].name_label.as_str(), markers[0].style), ("Wake Up [w]", white));
    assert_eq!((markers[1].seconds, markers[1].time_label.as_str()), (43200, "12:00"));
    assert_eq!((markers[1].name_label.as_str(), markers[1].style), ("Noon", white));
    assert_eq!((markers[2].seconds, markers[2].time_label.as_str()), (82800, "23:00"));
    assert_eq!((markers[2].name_label.as_str(), markers[2].style), ("Sleep [b]", white));
}

#[test]
fn a_time_that_is_typed_is_shown_as_typed() {
    let mut state = AppState::new(Config::default());
    state.handle_key(KeyPress { key: Key::Char('w'), ctrl: false });
    state.handle_key(KeyPress { key: Key::Backspace, ctrl: false });
    state.handle_key(KeyPress { key: Key::Backspace, ctrl: false });
    assert_eq!(state.input_buffer, "07:");
    let markers = markers_of(&state);
    assert_eq!(markers[0].time_label, "07:");
    assert_eq!(markers[0].seconds, 25200);
    assert_eq!(markers[0].style, CellStyle::bold_fg(Color::Yellow));
    assert_eq!(markers[2].time_label, "23:00");
    assert_eq!(markers[2].style, CellStyle::fg(Color::White));
    let times = schedule_row(&state, MarkerRow::Times, 40);
    let white = CellStyle::fg(Color::White);
    assert_eq!(
        times,
        vec![
            span("           ", white),
            span("07:", CellStyle::bold_fg(Color::Yellow)),
            span("    12:00            23:00", white),
        ]
    );
}

#[test]
fn markers_are_written_in_the_order_of_their_times() {
    // waking after noon: noon is written first, and the wake-up time covers it
    let mut config = Config::default();
    config.wake_up_time = "12:30".to_string();
    let state = AppState::new(config);
    assert_eq!(text_of(&schedule_row(&state, MarkerRow::Times, 20)), "        12:30  23:00");
    assert_eq!(text_of(&schedule_row(&state, MarkerRow::Labels, 20)), "     Wake USleep [b]");
}

#[test]
fn a_stored_time_that_is_no_time_stands_at_midnight() {
    let mut config = Config::default();
    config.wake_up_time = "soon".to_string();
    config.bed_time = "25:00".to_string();
    let state = AppState::new(config);
    let markers = markers_of(&state);
    assert_eq!((markers[0].seconds, markers[0].time_label.as_str()), (0, "00:00"));
    assert_eq!((markers[2].seconds, markers[2].time_label.as_str()), (90000, "25:00"));
    assert_eq!(text_of(&schedule_row(&state, MarkerRow::Ticks, 10)), "│    │   │");
}

#[test]
fn the_status_line_guides_the_editing() {
    let mut state = AppState::new(Config::default());
    assert_eq!(status_line(&state), None);
    state.input_mode = InputMode::Help;
    state.error_message = Some(ValidationError::BadHour);
    assert_eq!(status_line(&state), None);
    state.input_mode = InputMode::EditingWakeUp;
    assert_eq!(
        status_line(&state),
        Some(span("❌ Error: Hour must be 0-23 | Esc to cancel", CellStyle::bold_fg(Color::Red)))
    );
    state.error_message = Some(ValidationError::BadFormat);
    assert_eq!(
        status_line(&state),
        Some(span(
            "❌ Error: Invalid format. Use HH:MM | Esc to cancel",
            CellStyle::bold_fg(Color::Red)
        ))
    );
    state.input_mode = InputMode::EditingBedTime;
    state.error_message = None;
    assert_eq!(
        status_line(&state),
        Some(span(
            "Enter time (HH:MM) | Enter to confirm | Esc to cancel",
            CellStyle::bold_fg(Color::Yellow)
        ))
    );
}

#[test]
fn the_saying_changes_with_the_hour() {
    let colors = get_default_theme().dark;
    let style = CellStyle::italic_fg(Color::Rgb(100, 100, 100));
    assert_eq!(quote_line(&quotes(), 0, &colors), Some(span("\"First\"\n~ One", style)));
    assert_eq!(quote_line(&quotes(), 3599, &colors), Some(span("\"First\"\n~ One", style)));
    assert_eq!(quote_line(&quotes(), 3600, &colors), Some(span("\"Second\"\n~ Two", style)));
    assert_eq!(quote_line(&quotes(), 5 * 3600, &colors), Some(span("\"First\"\n~ One", style)));
    assert_eq!(quote_line(&quotes(), 86399, &colors), Some(span("\"Fourth\"\n~ Four", style)));
    assert_eq!(quote_line(&Vec::new(), 43200, &colors), None);
}

#[test]
fn the_legend_counts_the_day() {
    let colors = get_default_theme().dark;
    let plain = CellStyle::plain();
    assert_eq!(
        elapsed_line(23400, &colors),
        vec![span("● Elapsed:   ", CellStyle::bold_fg(Color::Cyan)), span("06:30", plain)]
    );
    assert_eq!(
        remaining_line(23400, &colors),
        vec![span("○ Remaining: ", CellStyle::bold_fg(Color::Rgb(60, 60, 60))), span("17:30", plain)]
    );
    assert_eq!(remaining_line(0, &colors)[1], span("24:00", plain));
    assert_eq!(remaining_line(86399, &colors)[1], span("00:00", plain));
    assert_eq!(elapsed_line(86399, &colors)[1], span("23:59", plain));
}

#[test]
fn the_frame_follows_theme_mode_and_style() {
    let mut state = AppState::new(Config::default());
    state.handle_key(KeyPress { key: Key::Char('t'), ctrl: false });
    state.handle_key(KeyPress { key: Key::Char('d'), ctrl: false });
    state.handle_key(KeyPress { key: Key::Char('s'), ctrl: false });
    // ocean, dark, gradient from (51, 153, 255) to (0, 255, 255)
    let meter = meter_of(render(&state, 43200, 4, &quotes()));
    assert_eq!(
        meter.bar,
        vec![
            span("█", CellStyle::fg(Color::Rgb(51, 153, 255))),
            span("│", CellStyle::bold_fg(Color::Rgb(153, 204, 255))),
            span("┃", CellStyle::bold_fg(Color::Rgb(255, 204, 0))),
            span("│", CellStyle::bold_fg(Color::Rgb(153, 204, 255))),
        ]
    );
    assert_eq!(meter.time_line, vec![span("12:0", CellStyle::bold_fg(Color::Rgb(102, 204, 255)))]);
}
