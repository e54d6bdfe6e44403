//! What the program holds while it runs, and how a key press changes it.

use vstd::prelude::*;
use vstd::arithmetic::div_mod::{lemma_add_mod_noop_right, lemma_mod_bound, lemma_small_mod};
use crate::clock::{
    clock_text_of, format_time, is_digit, lemma_written_time_is_valid, parse_time, seconds_of,
    validate_time, validated, ValidationError,
};
use crate::config::{Config, ConfigView, ProgressBarStyle};
use crate::text::{lowercase, pop_char, push_char};
use crate::theme::{
    get_all_themes, is_builtin, lemma_named_at, named_at, position_of, ColorScheme, Theme,
    ThemeMode, BUILTIN_THEMES,
};

verus! {

/// What the keyboard is used for at the moment.
#[derive(Clone, Copy, Debug, PartialEq, Eq, Structural)]
pub enum InputMode {
    /// Looking at the meter.
    Normal,
    /// Typing a new wake-up time.
    EditingWakeUp,
    /// Typing a new bed time.
    EditingBedTime,
    /// Looking at the help screen.
    Help,
}

/// A key of the keyboard.
#[derive(Clone, Copy, Debug, PartialEq, Eq, Structural)]
pub enum Key {
    Char(char),
    Enter,
    Esc,
    Backspace,
    /// Any other key.
    Other,
}

/// A key press: the key, and whether Control was held.
#[derive(Clone, Copy, Debug, PartialEq, Eq, Structural)]
pub struct KeyPress {
    pub key: Key,
    pub ctrl: bool,
}

/// What the program is to do after a key press, beside showing the new state.
#[derive(Clone, Copy, Debug, PartialEq, Eq, Structural)]
pub enum Action {
    /// Nothing.
    Stay,
    /// End the program.
    Quit,
    /// Store the configuration.
    Save,
    /// Open the documentation.
    OpenDocs,
}

/// Everything the program holds while it runs.
#[derive(Clone, Debug, PartialEq, Eq)]
pub struct AppState {
    pub current_theme_index: usize,
    pub theme_mode: ThemeMode,
    pub progress_bar_style: ProgressBarStyle,
    pub themes: Vec<Theme>,
    pub config: Config,
    pub input_mode: InputMode,
    pub input_buffer: String,
    pub error_message: Option<ValidationError>,
}

/// What the program holds, as plain text and values.
#[verifier::ext_equal]
pub struct AppStateView {
    pub current_theme_index: nat,
    pub theme_mode: ThemeMode,
    pub progress_bar_style: ProgressBarStyle,
    pub themes: Seq<Theme>,
    pub config: ConfigView,
    pub input_mode: InputMode,
    pub input_buffer: Seq<char>,
    pub error_message: Option<ValidationError>,
}

impl View for AppState {
    type V = AppStateView;

    open spec fn view(&self) -> AppStateView {
        AppStateView {
            current_theme_index: self.current_theme_index as nat,
            theme_mode: self.theme_mode,
            progress_bar_style: self.progress_bar_style,
            themes: self.themes@,
            config: self.config@,
            input_mode: self.input_mode,
            input_buffer: self.input_buffer@,
            error_message: self.error_message,
        }
    }
}

/// The name of a mode, as it is stored.
pub open spec fn mode_name(mode: ThemeMode) -> Seq<char> {
    match mode {
        ThemeMode::Light => "light"@,
        ThemeMode::Dark => "dark"@,
    }
}

impl AppStateView {
    /// There is a theme, and the current theme is one of them.
    pub open spec fn wf(self) -> bool {
        self.current_theme_index < self.themes.len()
    }

    /// The place of the theme after the current one, the first following the
    /// last.
    pub open spec fn next_theme_index(self) -> nat {
        (self.current_theme_index + 1) % self.themes.len()
    }

    /// The state with the next theme chosen and named in the configuration.
    pub open spec fn with_next_theme(self) -> AppStateView {
        AppStateView {
            current_theme_index: self.next_theme_index(),
            config: ConfigView {
                theme_name: self.themes[self.next_theme_index() as int].name@,
                ..self.config
            },
            ..self
        }
    }

    /// The state with the other mode chosen and named in the configuration.
    pub open spec fn with_toggled_mode(self) -> AppStateView {
        AppStateView {
            theme_mode: self.theme_mode.toggled(),
            config: ConfigView { theme_mode: mode_name(self.theme_mode.toggled()), ..self.config },
            ..self
        }
    }

    /// The state with the next bar style chosen and set in the
    /// configuration.
    pub open spec fn with_next_style(self) -> AppStateView {
        AppStateView {
            progress_bar_style: self.progress_bar_style.next(),
            config: ConfigView {
                progress_bar_style: self.progress_bar_style.next(),
                ..self.config
            },
            ..self
        }
    }

    /// The state in which a time is being typed: the buffer starts as the
    /// stored time, and no error is shown.
    pub open spec fn editing(self, mode: InputMode) -> AppStateView {
        AppStateView {
            input_mode: mode,
            input_buffer: if mode == InputMode::EditingBedTime {
                self.config.bed_time
            } else {
                self.config.wake_up_time
            },
            error_message: None,
            ..self
        }
    }

    /// The state back at the meter, with nothing typed and no error shown.
    pub open spec fn back_to_normal(self) -> AppStateView {
        AppStateView {
            input_mode: InputMode::Normal,
            input_buffer: Seq::empty(),
            error_message: None,
            ..self
        }
    }

    /// The state after the time that was being typed was accepted as
    /// `seconds`: it is stored as `HH:MM` in the field that was edited, and
    /// the state is back at the meter.
    pub open spec fn committed(self, seconds: u32) -> AppStateView {
        let stored = if self.input_mode == InputMode::EditingBedTime {
            ConfigView { bed_time: clock_text_of(seconds as nat), ..self.config }
        } else {
            ConfigView { wake_up_time: clock_text_of(seconds as nat), ..self.config }
        };
        AppStateView { config: stored, ..self }.back_to_normal()
    }

    /// Both stored times are valid times of day.
    pub open spec fn schedule_is_valid(self) -> bool {
        validated(self.config.wake_up_time) is Ok && validated(self.config.bed_time) is Ok
    }

    /// The state after going on to the next theme `times` times.
    pub open spec fn after_cycles(self, times: nat) -> AppStateView
        decreases times,
    {
        if times == 0 {
            self
        } else {
            self.after_cycles((times - 1) as nat).with_next_theme()
        }
    }

    /// A key press while looking at the meter. `q` quits, and so does `c`
    /// with Control. `t`, `d` and `s` go on to the next theme, the other mode
    /// and the next bar style, each of which is to be stored. `h` opens the
    /// help screen, `w` and `b` start the typing of the wake-up time and of
    /// the bed time, and `?` asks for the documentation. Every other key is
    /// ignored.
    pub open spec fn normal_step(self, press: KeyPress) -> (AppStateView, Action) {
        match press.key {
            Key::Char(c) => if c == 'q' {
                (self, Action::Quit)
            } else if c == 'c' && press.ctrl {
                (self, Action::Quit)
            } else if c == 't' {
                (self.with_next_theme(), Action::Save)
            } else if c == 'd' {
                (self.with_toggled_mode(), Action::Save)
            } else if c == 's' {
                (self.with_next_style(), Action::Save)
            } else if c == 'h' {
                (AppStateView { input_mode: InputMode::Help, ..self }, Action::Stay)
            } else if c == 'w' {
                (self.editing(InputMode::EditingWakeUp), Action::Stay)
            } else if c == 'b' {
                (self.editing(InputMode::EditingBedTime), Action::Stay)
            } else if c == '?' {
                (self, Action::OpenDocs)
            } else {
                (self, Action::Stay)
            },
            _ => (self, Action::Stay),
        }
    }

    /// A key press while looking at the help screen: `h`, `q` and Escape
    /// close it, and every other key is ignored.
    pub open spec fn help_step(self, press: KeyPress) -> (AppStateView, Action) {
        if press.key == Key::Esc || press.key == Key::Char('h') || press.key == Key::Char('q') {
            (AppStateView { input_mode: InputMode::Normal, ..self }, Action::Stay)
        } else {
            (self, Action::Stay)
        }
    }

    /// A key press while typing a time. Digits and the colon are appended,
    /// Backspace takes the last character away, Escape gives up, and Enter
    /// checks what was typed: a valid time is stored, and anything else
    /// leaves everything as it is but for the error that is shown.
    pub open spec fn editing_step(self, press: KeyPress) -> (AppStateView, Action) {
        match press.key {
            Key::Enter => match validated(self.input_buffer) {
                Ok(seconds) => (self.committed(seconds), Action::Save),
                Err(error) => (AppStateView { error_message: Some(error), ..self }, Action::Stay),
            },
            Key::Esc => (self.back_to_normal(), Action::Stay),
            Key::Backspace => if self.input_buffer.len() > 0 {
                (AppStateView { input_buffer: self.input_buffer.drop_last(), ..self }, Action::Stay)
            } else {
                (self, Action::Stay)
            },
            Key::Char(c) => if is_digit(c) || c == ':' {
                (AppStateView { input_buffer: self.input_buffer.push(c), ..self }, Action::Stay)
            } else {
                (self, Action::Stay)
            },
            Key::Other => (self, Action::Stay),
        }
    }

    /// The state after a key press, and what the program is to do.
    pub open spec fn step(self, press: KeyPress) -> (AppStateView, Action) {
        match self.input_mode {
            InputMode::Normal => self.normal_step(press),
            InputMode::Help => self.help_step(press),
            InputMode::EditingWakeUp => self.editing_step(press),
            InputMode::EditingBedTime => self.editing_step(press),
        }
    }
}

impl AppState {
    /// There is a theme, and the current theme is one of them.
    pub open spec fn wf(&self) -> bool {
        self@.wf()
    }

    /// The state in which the program starts: the built-in themes, of which
    /// the one named in the configuration is current, or the first where
    /// none has that name; mode and bar style as configured; looking at the
    /// meter, with nothing typed and no error.
    pub fn new(config: Config) -> (state: AppState)
        ensures
            state.wf(),
            state.config == config,
            state@.themes.len() == BUILTIN_THEMES,
            forall|index: int|
                0 <= index < state@.themes.len() ==> is_builtin(
                    #[trigger] state@.themes[index],
                    index,
                ),
            state.current_theme_index == (match named_at(state@.themes, config.theme_name@) {
                Some(index) => index,
                None => 0,
            }),
            state.theme_mode == Config::mode_of(lowercase(config.theme_mode@)),
            state.progress_bar_style == config.progress_bar_style,
            state.input_mode == InputMode::Normal,
            state.input_buffer@.len() == 0,
            state.error_message.is_none(),
    {
        let themes = get_all_themes();
        let current_theme_index = match position_of(&themes, config.theme_name.as_str()) {
            Some(index) => index,
            None => 0,
        };
        proof {
            lemma_named_at(themes@, config.theme_name@);
        }
        AppState {
            current_theme_index,
            theme_mode: config.get_theme_mode(),
            progress_bar_style: config.progress_bar_style,
            themes,
            config,
            input_mode: InputMode::Normal,
            input_buffer: String::new(),
            error_message: None,
        }
    }

    /// The theme that is shown.
    pub fn get_current_theme(&self) -> (theme: &Theme)
        requires
            self.wf(),
        ensures
            *theme == self@.themes[self.current_theme_index as int],
    {
        &self.themes[self.current_theme_index]
    }

    /// The colours that are shown: those of the current theme in the current
    /// mode.
    pub fn get_colors(&self) -> (colors: &ColorScheme)
        requires
            self.wf(),
        ensures
            *colors == self@.themes[self.current_theme_index as int].colors(self.theme_mode),
    {
        self.get_current_theme().get_colors(self.theme_mode)
    }

    /// Goes on to the next theme, the first following the last, and names it
    /// in the configuration.
    pub fn cycle_theme(&mut self)
        requires
            old(self).wf(),
        ensures
            final(self)@ =~= old(self)@.with_next_theme(),
            final(self).wf(),
    {
        let count = self.themes.len();
        self.current_theme_index = (self.current_theme_index + 1) % count;
        self.config.theme_name = self.themes[self.current_theme_index].name.clone();
    }

    /// Switches between light and dark, and names the mode in the
    /// configuration.
    pub fn toggle_mode(&mut self)
        ensures
            final(self)@ =~= old(self)@.with_toggled_mode(),
    {
        self.theme_mode = self.theme_mode.toggle();
        self.config.theme_mode = match self.theme_mode {
            ThemeMode::Light => String::from_str("light"),
            ThemeMode::Dark => String::from_str("dark"),
        };
    }

    /// Goes on to the next bar style, and sets it in the configuration.
    pub fn cycle_style(&mut self)
        ensures
            final(self)@ =~= old(self)@.with_next_style(),
    {
        self.progress_bar_style = self.progress_bar_style.cycle();
        self.config.progress_bar_style = self.progress_bar_style;
    }

    /// A key press while looking at the meter.
    fn handle_normal_key(&mut self, press: KeyPress) -> (action: Action)
        requires
            old(self).wf(),
        ensures
            final(self)@ =~= old(self)@.normal_step(press).0,
            action == old(self)@.normal_step(press).1,
            final(self).wf(),
    {
        match press.key {
            Key::Char(c) => {
                if c == 'q' {
                    Action::Quit
                } else if c == 'c' && press.ctrl {
                    Action::Quit
                } else if c == 't' {
                    self.cycle_theme();
                    Action::Save
                } else if c == 'd' {
                    self.toggle_mode();
                    Action::Save
                } else if c == 's' {
                    self.cycle_style();
                    Action::Save
                } else if c == 'h' {
                    self.input_mode = InputMode::Help;
                    Action::Stay
                } else if c == 'w' {
                    self.input_mode = InputMode::EditingWakeUp;
                    self.input_buffer = self.config.wake_up_time.clone();
                    self.error_message = None;
                    Action::Stay
                } else if c == 'b' {
                    self.input_mode = InputMode::EditingBedTime;
                    self.input_buffer = self.config.bed_time.clone();
                    self.error_message = None;
                    Action::Stay
                } else if c == '?' {
                    Action::OpenDocs
                } else {
                    Action::Stay
                }
            },
            _ => Action::Stay,
        }
    }

    /// A key press while looking at the help screen.
    fn handle_help_key(&mut self, press: KeyPress) -> (action: Action)
        requires
            old(self).wf(),
        ensures
            final(self)@ =~= old(self)@.help_step(press).0,
            action == old(self)@.help_step(press).1,
            final(self).wf(),
    {
        let closes = match press.key {
            Key::Esc => true,
            Key::Char(c) => c == 'h' || c == 'q',
            _ => false,
        };
        if closes {
            self.input_mode = InputMode::Normal;
        }
        Action::Stay
    }

    /// A key press while typing a time.
    fn handle_editing_key(&mut self, press: KeyPress) -> (action: Action)
        requires
            old(self).wf(),
        ensures
            final(self)@ =~= old(self)@.editing_step(press).0,
            action == old(self)@.editing_step(press).1,
            final(self).wf(),
    {
        match press.key {
            Key::Enter => match validate_time(self.input_buffer.as_str()) {
                Ok(seconds) => {
                    let stored = format_time(seconds as u64);
                    match self.input_mode {
                        InputMode::EditingBedTime => {
                            self.config.bed_time = stored;
                        },
                        _ => {
                            self.config.wake_up_time = stored;
                        },
                    }
                    self.input_mode = InputMode::Normal;
                    self.input_buffer = String::new();
                    self.error_message = None;
                    Action::Save
                },
                Err(error) => {
                    self.error_message = Some(error);
                    Action::Stay
                },
            },
            Key::Esc => {
                self.input_mode = InputMode::Normal;
                self.input_buffer = String::new();
                self.error_message = None;
                Action::Stay
            },
            Key::Backspace => {
                let _ = pop_char(&mut self.input_buffer);
                Action::Stay
            },
            Key::Char(c) => {
                if (c >= '0' && c <= '9') || c == ':' {
                    push_char(&mut self.input_buffer, c);
                }
                Action::Stay
            },
            Key::Other => Action::Stay,
        }
    }

    /// Takes a key press: changes the state as the mode and the key ask, and
    /// says what the program is to do next.
    pub fn handle_key(&mut self, press: KeyPress) -> (action: Action)
        requires
            old(self).wf(),
        ensures
            final(self)@ =~= old(self)@.step(press).0,
            action == old(self)@.step(press).1,
            final(self).wf(),
    {
        match self.input_mode {
            InputMode::Normal => self.handle_normal_key(press),
            InputMode::Help => self.handle_help_key(press),
            InputMode::EditingWakeUp => self.handle_editing_key(press),
            InputMode::EditingBedTime => self.handle_editing_key(press),
        }
    }

    /// The stored wake-up time, in seconds since midnight.
    pub fn get_wake_up_seconds(&self) -> (seconds: u64)
        ensures
            seconds == seconds_of(self@.config.wake_up_time),
    {
        parse_time(self.config.wake_up_time.as_str())
    }

    /// The stored bed time, in seconds since midnight.
    pub fn get_bed_seconds(&self) -> (seconds: u64)
        ensures
            seconds == seconds_of(self@.config.bed_time),
    {
        parse_time(self.config.bed_time.as_str())
    }
}

/// Going on to the next theme `times` times leads to the theme that stands
/// `times` places further on in the list, counted round.
pub proof fn lemma_cycle_position(state: AppStateView, times: nat)
    requires
        state.wf(),
    ensures
        state.after_cycles(times).wf(),
        state.after_cycles(times).themes == state.themes,
        state.after_cycles(times).current_theme_index == (state.current_theme_index + times)
            % state.themes.len(),
    decreases times,
{
    let count = state.themes.len() as int;
    if times == 0 {
        lemma_small_mod(state.current_theme_index, state.themes.len());
    } else {
        lemma_cycle_position(state, (times - 1) as nat);
        let before = state.after_cycles((times - 1) as nat);
        let sum = state.current_theme_index + times - 1;
        lemma_add_mod_noop_right(1, sum, count);
        lemma_mod_bound(1 + sum, count);
        assert(1 + sum == state.current_theme_index + times);
        assert(before.current_theme_index + 1 == 1 + sum % count);
        assert((before.current_theme_index + 1) as int % count == (state.current_theme_index
            + times) as int % count);
    }
}

/// Going on to the next theme a multiple of the number of themes times leads
/// back to the theme from which one set out.
pub proof fn lemma_cycle_returns(state: AppStateView, times: nat)
    requires
        state.wf(),
        times % state.themes.len() == 0,
    ensures
        state.after_cycles(times).current_theme_index == state.current_theme_index,
        state.after_cycles(times).themes == state.themes,
{
    let count = state.themes.len() as int;
    lemma_cycle_position(state, times);
    lemma_add_mod_noop_right(state.current_theme_index as int, times as int, count);
    lemma_small_mod(state.current_theme_index, state.themes.len());
}

/// No key press spoils the schedule: where both stored times were valid
/// before it, they are valid after it. A stored time changes only when Enter
/// is pressed on a valid time while that time is edited; whatever else is
/// typed or entered leaves the schedule as it was.
pub proof fn lemma_step_keeps_schedule(state: AppStateView, press: KeyPress)
    ensures
        state.schedule_is_valid() ==> state.step(press).0.schedule_is_valid(),
        state.step(press).0.config.wake_up_time != state.config.wake_up_time ==> state.input_mode
            == InputMode::EditingWakeUp && press.key == Key::Enter && validated(
            state.input_buffer,
        ) is Ok,
        state.step(press).0.config.bed_time != state.config.bed_time ==> state.input_mode
            == InputMode::EditingBedTime && press.key == Key::Enter && validated(
            state.input_buffer,
        ) is Ok,
{
    if press.key == Key::Enter && validated(state.input_buffer) is Ok {
        let seconds = validated(state.input_buffer)->Ok_0;
        assert(seconds < 86400);
        lemma_written_time_is_valid(seconds as nat);
    }
}

} // verus!
