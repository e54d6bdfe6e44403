//! The configuration record and its defaults.

use vstd::prelude::*;
use vstd::string::*;
use crate::text::lowercase;
use crate::theme::{
    builtin_index, get_default_theme, get_theme_by_name, is_builtin, mode_named, Theme, ThemeMode,
};

verus! {

/// How the progress bar is drawn.
#[derive(Clone, Copy, Debug, PartialEq, Eq, Structural)]
pub enum ProgressBarStyle {
    Gradient,
    Grainy,
    Analog,
}

impl ProgressBarStyle {
    /// The style that follows this one: gradient, grainy, analog, and round
    /// again.
    pub open spec fn next(self) -> ProgressBarStyle {
        match self {
            ProgressBarStyle::Gradient => ProgressBarStyle::Grainy,
            ProgressBarStyle::Grainy => ProgressBarStyle::Analog,
            ProgressBarStyle::Analog => ProgressBarStyle::Gradient,
        }
    }

    /// Steps to the next style.
    pub fn cycle(&self) -> (next: ProgressBarStyle)
        ensures
            next == self.next(),
    {
        match self {
            ProgressBarStyle::Gradient => ProgressBarStyle::Grainy,
            ProgressBarStyle::Grainy => ProgressBarStyle::Analog,
            ProgressBarStyle::Analog => ProgressBarStyle::Gradient,
        }
    }
}

impl Default for ProgressBarStyle {
    fn default() -> (style: ProgressBarStyle)
        ensures
            style == ProgressBarStyle::Analog,
    {
        ProgressBarStyle::Analog
    }
}

/// A marker of the user's own: a label and a time.
#[derive(Clone, Debug, PartialEq, Eq)]
pub struct MarkerConfig {
    pub label: String,
    pub time: String,
}

/// The configuration record, as it is stored.
#[derive(Clone, Debug, PartialEq, Eq)]
pub struct Config {
    pub theme_name: String,
    pub theme_mode: String,
    pub progress_bar_style: ProgressBarStyle,
    pub wake_up_time: String,
    pub bed_time: String,
    pub markers: Vec<MarkerConfig>,
}

/// What a configuration record holds, as plain text and values.
#[verifier::ext_equal]
pub struct ConfigView {
    pub theme_name: Seq<char>,
    pub theme_mode: Seq<char>,
    pub progress_bar_style: ProgressBarStyle,
    pub wake_up_time: Seq<char>,
    pub bed_time: Seq<char>,
    pub markers: Seq<MarkerConfig>,
}

impl View for Config {
    type V = ConfigView;

    open spec fn view(&self) -> ConfigView {
        ConfigView {
            theme_name: self.theme_name@,
            theme_mode: self.theme_mode@,
            progress_bar_style: self.progress_bar_style,
            wake_up_time: self.wake_up_time@,
            bed_time: self.bed_time@,
            markers: self.markers@,
        }
    }
}

/// The configuration that is used where nothing is stored: the theme
/// `default` in its light mode, the analog bar, waking at seven and going to
/// bed at eleven, and no markers of the user's own.
pub open spec fn default_config() -> ConfigView {
    ConfigView {
        theme_name: "default"@,
        theme_mode: "light"@,
        progress_bar_style: ProgressBarStyle::Analog,
        wake_up_time: "07:00"@,
        bed_time: "23:00"@,
        markers: Seq::empty(),
    }
}

/// The name of the theme that is used where none is stored.
pub fn default_theme_name() -> (name: String)
    ensures
        name@ == "default"@,
{
    String::from_str("default")
}

/// The mode that is used where none is stored.
pub fn default_theme_mode() -> (mode: String)
    ensures
        mode@ == "light"@,
{
    String::from_str("light")
}

/// The wake-up time that is used where none is stored.
pub fn default_wake_up_time() -> (time: String)
    ensures
        time@ == "07:00"@,
{
    String::from_str("07:00")
}

/// The bed time that is used where none is stored.
pub fn default_bed_time() -> (time: String)
    ensures
        time@ == "23:00"@,
{
    String::from_str("23:00")
}

impl Default for Config {
    fn default() -> (config: Config)
        ensures
            config@ == default_config(),
    {
        Config {
            theme_name: default_theme_name(),
            theme_mode: default_theme_mode(),
            progress_bar_style: ProgressBarStyle::Analog,
            wake_up_time: default_wake_up_time(),
            bed_time: default_bed_time(),
            markers: Vec::new(),
        }
    }
}

/// The place of the first configuration that could be read, if any could.
pub open spec fn first_read(candidates: Seq<Option<Config>>) -> Option<int>
    decreases candidates.len(),
{
    if candidates.len() == 0 {
        None
    } else if candidates[0].is_some() {
        Some(0)
    } else {
        match first_read(candidates.drop_first()) {
            Some(index) => Some(index + 1),
            None => None,
        }
    }
}

/// The first configuration that could be read stands at a place before which
/// none could.
pub proof fn lemma_first_read(candidates: Seq<Option<Config>>, index: int)
    requires
        0 <= index <= candidates.len(),
        forall|earlier: int| 0 <= earlier < index ==> (#[trigger] candidates[earlier]).is_none(),
    ensures
        index < candidates.len() && candidates[index].is_some() ==> first_read(candidates) == Some(
            index,
        ),
        index == candidates.len() ==> first_read(candidates).is_none(),
    decreases index,
{
    if index > 0 {
        let rest = candidates.drop_first();
        assert forall|earlier: int| 0 <= earlier < index - 1 implies (
        #[trigger] rest[earlier]).is_none() by {
            assert(rest[earlier] == candidates[earlier + 1]);
        }
        lemma_first_read(rest, index - 1);
    }
}

impl Config {
    /// Chooses the configuration to run with. `candidates` holds, for each
    /// place where a configuration file may lie, in the order of their
    /// rank, what was read there, or `None` where no file lies or the file
    /// could not be read. The first one that was read is taken; where none
    /// was, the defaults are.
    pub fn load(candidates: Vec<Option<Config>>) -> (config: Config)
        ensures
            match first_read(candidates@) {
                Some(index) => config == candidates@[index].unwrap(),
                None => config@ == default_config(),
            },
    {
        let mut index: usize = 0;
        while index < candidates.len()
            invariant
                index <= candidates@.len(),
                forall|earlier: int|
                    0 <= earlier < index ==> (#[trigger] candidates@[earlier]).is_none(),
            decreases candidates@.len() - index,
        {
            if candidates[index].is_some() {
                proof {
                    lemma_first_read(candidates@, index as int);
                }
                let mut list = candidates;
                let found = list.remove(index);
                return found.unwrap();
            }
            index += 1;
        }
        proof {
            lemma_first_read(candidates@, index as int);
        }
        Config::default()
    }

    /// The theme that the configuration names: the built-in theme of that
    /// name, or the theme `default` where there is none of that name.
    pub fn get_theme(&self) -> (theme: Theme)
        ensures
            match builtin_index(self.theme_name@) {
                Some(index) => is_builtin(theme, index),
                None => is_builtin(theme, 0),
            },
    {
        match get_theme_by_name(self.theme_name.as_str()) {
            Some(theme) => theme,
            None => get_default_theme(),
        }
    }

    /// The mode that `theme_mode` stands for where `lowered` is its
    /// lower-case form: light where it names no mode.
    pub open spec fn mode_of(lowered: Seq<char>) -> ThemeMode {
        match mode_named(lowered) {
            Some(mode) => mode,
            None => ThemeMode::Light,
        }
    }

    /// The mode that the configuration names, light or dark in any case of
    /// letters, and light where it names neither.
    pub fn get_theme_mode(&self) -> (mode: ThemeMode)
        ensures
            mode == Config::mode_of(lowercase(self.theme_mode@)),
    {
        match ThemeMode::from_str(self.theme_mode.as_str()) {
            Ok(mode) => mode,
            Err(_) => ThemeMode::Light,
        }
    }
}

} // verus!
