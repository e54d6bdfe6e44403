use t_meter::clock::ValidationError;
use t_meter::config::{Config, ProgressBarStyle};
use t_meter::state::{Action, AppState, InputMode, Key, KeyPress};
use t_meter::theme::{get_all_themes, ThemeMode};

fn press(state: &mut AppState, c: char) -> Action {
    state.handle_key(KeyPress { key: Key::Char(c), ctrl: false })
}

fn hit(state: &mut AppState, key: Key) -> Action {
    state.handle_key(KeyPress { key, ctrl: false })
}

fn type_text(state: &mut AppState, text: &str) {
    for c in text.chars() {
        assert_eq!(press(state, c), Action::Stay);
    }
}

fn clear_buffer(state: &mut AppState) {
    while !state.input_buffer.is_empty() {
        assert_eq!(hit(state, Key::Backspace), Action::Stay);
    }
}

#[test]
fn the_program_starts_at_the_meter() {
    let state = AppState::new(Config::default());
    assert_eq!(state.current_theme_index, 0);
    assert_eq!(state.theme_mode, ThemeMode::Light);
    assert_eq!(state.progress_bar_style, ProgressBarStyle::Analog);
    assert_eq!(state.themes, get_all_themes());
    assert_eq!(state.config, Config::default());
    assert_eq!(state.input_mode, InputMode::Normal);
    assert_eq!(state.input_buffer, "");
    assert_eq!(state.error_message, None);
}

#[test]
fn the_program_starts_with_what_is_configured() {
    let mut config = Config::default();
    config.theme_name = "sunset".to_string();
    config.theme_mode = "DARK".to_string();
    config.progress_bar_style = ProgressBarStyle::Grainy;
    let state = AppState::new(config.clone());
    assert_eq!(state.current_theme_index, 3);
    assert_eq!(state.get_current_theme().name, "sunset");
    assert_eq!(state.theme_mode, ThemeMode::Dark);
    assert_eq!(state.progress_bar_style, ProgressBarStyle::Grainy);
    assert_eq!(state.get_colors(), &get_all_themes()[3].dark);
    assert_eq!(state.config, config);
}

#[test]
fn an_unknown_theme_starts_with_the_first() {
    let mut config = Config::default();
    config.theme_name = "aurora".to_string();
    config.theme_mode = "dusk".to_string();
    let state = AppState::new(config);
    assert_eq!(state.current_theme_index, 0);
    assert_eq!(state.theme_mode, ThemeMode::Light);
    assert_eq!(state.config.theme_name, "aurora");
}

#[test]
fn cycling_themes_goes_round() {
    let mut state = AppState::new(Config::default());
    let names = ["ocean", "forest", "sunset", "monochrome", "contrast", "default"];
    for (step, name) in names.iter().enumerate() {
        assert_eq!(press(&mut state, 't'), Action::Save);
        assert_eq!(state.current_theme_index, (step + 1) % 6);
        assert_eq!(state.config.theme_name, *name);
    }
}

#[test]
fn cycling_a_multiple_of_the_themes_comes_back() {
    for start in 0..6usize {
        for rounds in 0..4usize {
            let mut state = AppState::new(Config::default());
            state.current_theme_index = start;
            for _ in 0..rounds * 6 {
                state.cycle_theme();
            }
            assert_eq!(state.current_theme_index, start);
            if rounds > 0 {
                assert_eq!(state.config.theme_name, state.themes[start].name);
            }
        }
    }
}

#[test]
fn toggling_the_mode_names_it_in_the_configuration() {
    let mut state = AppState::new(Config::default());
    assert_eq!(press(&mut state, 'd'), Action::Save);
    assert_eq!(state.theme_mode, ThemeMode::Dark);
    assert_eq!(state.config.theme_mode, "dark");
    assert_eq!(press(&mut state, 'd'), Action::Save);
    assert_eq!(state.theme_mode, ThemeMode::Light);
    assert_eq!(state.config.theme_mode, "light");
}

#[test]
fn cycling_the_bar_style_sets_it_in_the_configuration() {
    let mut state = AppState::new(Config::default());
    assert_eq!(press(&mut state, 's'), Action::Save);
    assert_eq!(state.progress_bar_style, ProgressBarStyle::Gradient);
    assert_eq!(state.config.progress_bar_style, ProgressBarStyle::Gradient);
    assert_eq!(press(&mut state, 's'), Action::Save);
    assert_eq!(state.progress_bar_style, ProgressBarStyle::Grainy);
    assert_eq!(state.config.progress_bar_style, ProgressBarStyle::Grainy);
}

#[test]
fn quitting_keys_quit() {
    let mut state = AppState::new(Config::default());
    let before = state.clone();
    assert_eq!(press(&mut state, 'q'), Action::Quit);
    assert_eq!(state.handle_key(KeyPress { key: Key::Char('c'), ctrl: true }), Action::Quit);
    assert_eq!(state.handle_key(KeyPress { key: Key::Char('q'), ctrl: true }), Action::Quit);
    assert_eq!(press(&mut state, 'c'), Action::Stay);
    assert_eq!(state, before);
}

#[test]
fn the_question_mark_opens_the_documentation() {
    let mut state = AppState::new(Config::default());
    let before = state.clone();
    assert_eq!(press(&mut state, '?'), Action::OpenDocs);
    assert_eq!(state, before);
}

#[test]
fn other_keys_do_nothing_at_the_meter() {
    let mut state = AppState::new(Config::default());
    let before = state.clone();
    for key in [Key::Enter, Key::Esc, Key::Backspace, Key::Other, Key::Char('x'), Key::Char('5')] {
        assert_eq!(hit(&mut state, key), Action::Stay);
        assert_eq!(state, before);
    }
}

#[test]
fn help_opens_and_closes() {
    for closing in [Key::Esc, Key::Char('h'), Key::Char('q')] {
        let mut state = AppState::new(Config::default());
        assert_eq!(press(&mut state, 'h'), Action::Stay);
        assert_eq!(state.input_mode, InputMode::Help);
        assert_eq!(hit(&mut state, closing), Action::Stay);
        assert_eq!(state.input_mode, InputMode::Normal);
    }
}

#[test]
fn help_ignores_every_other_key() {
    let mut state = AppState::new(Config::default());
    press(&mut state, 'h');
    let before = state.clone();
    for key in [
        Key::Enter,
        Key::Backspace,
        Key::Other,
        Key::Char('t'),
        Key::Char('d'),
        Key::Char('s'),
        Key::Char('w'),
        Key::Char('b'),
        Key::Char('?'),
    ] {
        assert_eq!(hit(&mut state, key), Action::Stay);
        assert_eq!(state, before);
    }
    assert_eq!(state.handle_key(KeyPress { key: Key::Char('c'), ctrl: true }), Action::Stay);
    assert_eq!(state, before);
}

#[test]
fn editing_starts_with_the_stored_time() {
    let mut state = AppState::new(Config::default());
    state.error_message = Some(ValidationError::BadFormat);
    assert_eq!(press(&mut state, 'w'), Action::Stay);
    assert_eq!(state.input_mode, InputMode::EditingWakeUp);
    assert_eq!(state.input_buffer, "07:00");
    assert_eq!(state.error_message, None);

    let mut state = AppState::new(Config::default());
    assert_eq!(press(&mut state, 'b'), Action::Stay);
    assert_eq!(state.input_mode, InputMode::EditingBedTime);
    assert_eq!(state.input_buffer, "23:00");
}

#[test]
fn only_digits_and_colons_are_typed() {
    let mut state = AppState::new(Config::default());
    press(&mut state, 'w');
    clear_buffer(&mut state);
    type_text(&mut state, "1a2:b3 q-4٣");
    assert_eq!(state.input_buffer, "12:34");
    assert_eq!(state.input_mode, InputMode::EditingWakeUp);
    assert_eq!(hit(&mut state, Key::Other), Action::Stay);
    assert_eq!(state.input_buffer, "12:34");
}

#[test]
fn backspace_takes_the_last_character() {
    let mut state = AppState::new(Config::default());
    press(&mut state, 'b');
    assert_eq!(hit(&mut state, Key::Backspace), Action::Stay);
    assert_eq!(state.input_buffer, "23:0");
    clear_buffer(&mut state);
    assert_eq!(state.input_buffer, "");
    assert_eq!(hit(&mut state, Key::Backspace), Action::Stay);
    assert_eq!(state.input_buffer, "");
    assert_eq!(state.input_mode, InputMode::EditingBedTime);
}

#[test]
fn escape_gives_up_without_a_change() {
    let mut state = AppState::new(Config::default());
    press(&mut state, 'w');
    clear_buffer(&mut state);
    type_text(&mut state, "99:00");
    hit(&mut state, Key::Enter);
    assert_eq!(state.error_message, Some(ValidationError::BadHour));
    assert_eq!(hit(&mut state, Key::Esc), Action::Stay);
    assert_eq!(state, AppState::new(Config::default()));
}

#[test]
fn an_hour_of_99_is_refused() {
    let mut state = AppState::new(Config::default());
    assert_eq!(press(&mut state, 'w'), Action::Stay);
    clear_buffer(&mut state);
    type_text(&mut state, "99:00");
    assert_eq!(hit(&mut state, Key::Enter), Action::Stay);
    assert_eq!(state.error_message, Some(ValidationError::BadHour));
    assert_eq!(state.error_message.unwrap().message(), "Hour must be 0-23");
    assert_eq!(state.input_mode, InputMode::EditingWakeUp);
    assert_eq!(state.input_buffer, "99:00");
    assert_eq!(state.config.wake_up_time, "07:00");
    assert_eq!(state.config, Config::default());
}

#[test]
fn half_past_six_is_stored() {
    let mut state = AppState::new(Config::default());
    assert_eq!(press(&mut state, 'w'), Action::Stay);
    clear_buffer(&mut state);
    type_text(&mut state, "06:30");
    assert_eq!(hit(&mut state, Key::Enter), Action::Save);
    assert_eq!(state.config.wake_up_time, "06:30");
    assert_eq!(state.input_mode, InputMode::Normal);
    assert_eq!(state.input_buffer, "");
    assert_eq!(state.error_message, None);
    assert_eq!(state.config.bed_time, "23:00");
    assert_eq!(state.get_wake_up_seconds(), 23400);
}

#[test]
fn typing_behind_the_stored_time_is_a_format_error() {
    let mut state = AppState::new(Config::default());
    press(&mut state, 'w');
    type_text(&mut state, "06:30");
    assert_eq!(state.input_buffer, "07:0006:30");
    assert_eq!(hit(&mut state, Key::Enter), Action::Stay);
    assert_eq!(state.error_message, Some(ValidationError::BadFormat));
    assert_eq!(state.config.wake_up_time, "07:00");
}

#[test]
fn the_bed_time_is_stored_in_its_own_field() {
    let mut state = AppState::new(Config::default());
    press(&mut state, 'b');
    clear_buffer(&mut state);
    type_text(&mut state, "22:15");
    assert_eq!(hit(&mut state, Key::Enter), Action::Save);
    assert_eq!(state.config.bed_time, "22:15");
    assert_eq!(state.config.wake_up_time, "07:00");
    assert_eq!(state.get_bed_seconds(), 22 * 3600 + 15 * 60);
    assert_eq!(state.input_mode, InputMode::Normal);
}

#[test]
fn a_time_is_stored_in_two_digits_each() {
    let mut state = AppState::new(Config::default());
    press(&mut state, 'w');
    clear_buffer(&mut state);
    type_text(&mut state, "6:5");
    assert_eq!(hit(&mut state, Key::Enter), Action::Save);
    assert_eq!(state.config.wake_up_time, "06:05");
}

#[test]
fn each_error_is_shown_and_the_last_one_stays() {
    let mut state = AppState::new(Config::default());
    press(&mut state, 'b');
    clear_buffer(&mut state);
    type_text(&mut state, "12:60");
    assert_eq!(hit(&mut state, Key::Enter), Action::Stay);
    assert_eq!(state.error_message, Some(ValidationError::BadMinute));
    clear_buffer(&mut state);
    assert_eq!(hit(&mut state, Key::Enter), Action::Stay);
    assert_eq!(state.error_message, Some(ValidationError::BadFormat));
    type_text(&mut state, "1");
    assert_eq!(state.error_message, Some(ValidationError::BadFormat));
    assert_eq!(state.config.bed_time, "23:00");
    assert_eq!(state.input_mode, InputMode::EditingBedTime);
}

#[test]
fn keys_of_the_meter_are_text_while_editing() {
    let mut state = AppState::new(Config::default());
    press(&mut state, 'w');
    let before = state.clone();
    for c in ['q', 't', 'd', 's', 'h', 'w', 'b', '?'] {
        assert_eq!(press(&mut state, c), Action::Stay);
    }
    assert_eq!(state.handle_key(KeyPress { key: Key::Char('c'), ctrl: true }), Action::Stay);
    assert_eq!(state, before);
}

#[test]
fn stored_times_are_read_as_seconds() {
    let mut state = AppState::new(Config::default());
    assert_eq!(state.get_wake_up_seconds(), 25200);
    assert_eq!(state.get_bed_seconds(), 82800);
    state.config.wake_up_time = "nonsense".to_string();
    assert_eq!(state.get_wake_up_seconds(), 0);
}
