//! Colours, colour schemes and the built-in themes.

use vstd::prelude::*;
use vstd::string::*;
use crate::text::{lowercase, to_lowercase};

verus! {

/// A terminal colour: one of the sixteen named colours, the terminal's own
/// default, a palette index, or a 24-bit colour.
#[derive(Clone, Copy, Debug, PartialEq, Eq, Structural)]
pub enum Color {
    Reset,
    Black,
    Red,
    Green,
    Yellow,
    Blue,
    Magenta,
    Cyan,
    Gray,
    DarkGray,
    LightRed,
    LightGreen,
    LightYellow,
    LightBlue,
    LightMagenta,
    LightCyan,
    White,
    Rgb(u8, u8, u8),
    Indexed(u8),
}

/// Light or dark variant of a theme.
#[derive(Clone, Copy, Debug, PartialEq, Eq, Structural)]
pub enum ThemeMode {
    Light,
    Dark,
}

impl ThemeMode {
    /// The other mode.
    pub open spec fn toggled(self) -> ThemeMode {
        match self {
            ThemeMode::Light => ThemeMode::Dark,
            ThemeMode::Dark => ThemeMode::Light,
        }
    }

    /// Switches between light and dark.
    pub fn toggle(&self) -> (other: ThemeMode)
        ensures
            other == self.toggled(),
    {
        match self {
            ThemeMode::Light => ThemeMode::Dark,
            ThemeMode::Dark => ThemeMode::Light,
        }
    }
}

/// The colours of every part of the screen.
#[derive(Clone, Copy, Debug, PartialEq, Eq)]
pub struct ColorScheme {
    pub background: Option<Color>,
    pub foreground: Color,
    pub title: Color,
    pub progress_start: Color,
    pub progress_end: Color,
    pub progress_empty: Color,
    pub progress_indicator: Color,
    pub marker: Color,
    pub marker_label: Color,
    pub quote: Color,
    pub legend_elapsed: Color,
    pub legend_remaining: Color,
}

/// A named pair of colour schemes, one for each mode.
#[derive(Clone, Debug, PartialEq, Eq)]
pub struct Theme {
    pub name: String,
    pub light: ColorScheme,
    pub dark: ColorScheme,
}

impl Theme {
    /// The colours of the theme in a mode.
    pub open spec fn colors(self, mode: ThemeMode) -> ColorScheme {
        match mode {
            ThemeMode::Light => self.light,
            ThemeMode::Dark => self.dark,
        }
    }

    /// The colours of the theme in a mode.
    pub fn get_colors(&self, mode: ThemeMode) -> (colors: &ColorScheme)
        ensures
            *colors == self.colors(mode),
    {
        match mode {
            ThemeMode::Light => &self.light,
            ThemeMode::Dark => &self.dark,
        }
    }
}

/// The light colours of the theme `default`.
pub open spec fn default_light() -> ColorScheme {
    ColorScheme {
        background: None,
        foreground: Color::White,
        title: Color::White,
        progress_start: Color::White,
        progress_end: Color::White,
        progress_empty: Color::DarkGray,
        progress_indicator: Color::Yellow,
        marker: Color::White,
        marker_label: Color::White,
        quote: Color::Gray,
        legend_elapsed: Color::White,
        legend_remaining: Color::DarkGray,
    }
}

/// The dark colours of the theme `default`.
pub open spec fn default_dark() -> ColorScheme {
    ColorScheme {
        background: None,
        foreground: Color::White,
        title: Color::Cyan,
        progress_start: Color::Cyan,
        progress_end: Color::Blue,
        progress_empty: Color::Rgb(40, 40, 40),
        progress_indicator: Color::Yellow,
        marker: Color::Gray,
        marker_label: Color::DarkGray,
        quote: Color::Rgb(100, 100, 100),
        legend_elapsed: Color::Cyan,
        legend_remaining: Color::Rgb(60, 60, 60),
    }
}

/// The light colours of the theme `ocean`.
pub open spec fn ocean_light() -> ColorScheme {
    ColorScheme {
        background: None,
        foreground: Color::Rgb(0, 102, 153),
        title: Color::Rgb(0, 102, 153),
        progress_start: Color::Rgb(0, 153, 204),
        progress_end: Color::Rgb(0, 204, 255),
        progress_empty: Color::Rgb(204, 229, 255),
        progress_indicator: Color::Rgb(255, 153, 0),
        marker: Color::Rgb(0, 102, 153),
        marker_label: Color::Rgb(0, 77, 128),
        quote: Color::Rgb(102, 153, 179),
        legend_elapsed: Color::Rgb(0, 153, 204),
        legend_remaining: Color::Rgb(153, 204, 229),
    }
}

/// The dark colours of the theme `ocean`.
pub open spec fn ocean_dark() -> ColorScheme {
    ColorScheme {
        background: None,
        foreground: Color::Rgb(102, 204, 255),
        title: Color::Rgb(102, 204, 255),
        progress_start: Color::Rgb(51, 153, 255),
        progress_end: Color::Rgb(0, 255, 255),
        progress_empty: Color::Rgb(0, 51, 102),
        progress_indicator: Color::Rgb(255, 204, 0),
        marker: Color::Rgb(153, 204, 255),
        marker_label: Color::Rgb(102, 153, 204),
        quote: Color::Rgb(77, 128, 153),
        legend_elapsed: Color::Rgb(51, 153, 255),
        legend_remaining: Color::Rgb(51, 102, 153),
    }
}

/// The light colours of the theme `forest`.
pub open spec fn forest_light() -> ColorScheme {
    ColorScheme {
        background: None,
        foreground: Color::Rgb(34, 139, 34),
        title: Color::Rgb(34, 139, 34),
        progress_start: Color::Rgb(50, 205, 50),
        progress_end: Color::Rgb(154, 205, 50),
        progress_empty: Color::Rgb(193, 225, 193),
        progress_indicator: Color::Rgb(255, 215, 0),
        marker: Color::Rgb(34, 139, 34),
        marker_label: Color::Rgb(0, 100, 0),
        quote: Color::Rgb(107, 142, 35),
        legend_elapsed: Color::Rgb(50, 205, 50),
        legend_remaining: Color::Rgb(144, 238, 144),
    }
}

/// The dark colours of the theme `forest`.
pub open spec fn forest_dark() -> ColorScheme {
    ColorScheme {
        background: None,
        foreground: Color::Rgb(144, 238, 144),
        title: Color::Rgb(144, 238, 144),
        progress_start: Color::Rgb(34, 139, 34),
        progress_end: Color::Rgb(0, 255, 127),
        progress_empty: Color::Rgb(25, 51, 25),
        progress_indicator: Color::Rgb(255, 255, 102),
        marker: Color::Rgb(107, 142, 35),
        marker_label: Color::Rgb(85, 107, 47),
        quote: Color::Rgb(85, 107, 47),
        legend_elapsed: Color::Rgb(34, 139, 34),
        legend_remaining: Color::Rgb(60, 90, 60),
    }
}

/// The light colours of the theme `sunset`.
pub open spec fn sunset_light() -> ColorScheme {
    ColorScheme {
        background: None,
        foreground: Color::Rgb(255, 99, 71),
        title: Color::Rgb(255, 99, 71),
        progress_start: Color::Rgb(255, 140, 0),
        progress_end: Color::Rgb(255, 69, 0),
        progress_empty: Color::Rgb(255, 228, 196),
        progress_indicator: Color::Rgb(255, 215, 0),
        marker: Color::Rgb(255, 99, 71),
        marker_label: Color::Rgb(205, 92, 92),
        quote: Color::Rgb(188, 143, 143),
        legend_elapsed: Color::Rgb(255, 140, 0),
        legend_remaining: Color::Rgb(255, 182, 193),
    }
}

/// The dark colours of the theme `sunset`.
pub open spec fn sunset_dark() -> ColorScheme {
    ColorScheme {
        background: None,
        foreground: Color::Rgb(255, 182, 193),
        title: Color::Rgb(255, 182, 193),
        progress_start: Color::Rgb(255, 99, 71),
        progress_end: Color::Rgb(255, 20, 147),
        progress_empty: Color::Rgb(102, 51, 51),
        progress_indicator: Color::Rgb(255, 255, 102),
        marker: Color::Rgb(255, 140, 0),
        marker_label: Color::Rgb(205, 92, 92),
        quote: Color::Rgb(139, 69, 19),
        legend_elapsed: Color::Rgb(255, 99, 71),
        legend_remaining: Color::Rgb(128, 64, 64),
    }
}

/// The light colours of the theme `monochrome`.
pub open spec fn monochrome_light() -> ColorScheme {
    ColorScheme {
        background: None,
        foreground: Color::Black,
        title: Color::Black,
        progress_start: Color::Rgb(20, 20, 20),
        progress_end: Color::Rgb(100, 100, 100),
        progress_empty: Color::Rgb(220, 220, 220),
        progress_indicator: Color::Rgb(0, 0, 0),
        marker: Color::Rgb(40, 40, 40),
        marker_label: Color::Rgb(20, 20, 20),
        quote: Color::Rgb(80, 80, 80),
        legend_elapsed: Color::Rgb(40, 40, 40),
        legend_remaining: Color::Rgb(160, 160, 160),
    }
}

/// The dark colours of the theme `monochrome`.
pub open spec fn monochrome_dark() -> ColorScheme {
    ColorScheme {
        background: None,
        foreground: Color::White,
        title: Color::White,
        progress_start: Color::Rgb(220, 220, 220),
        progress_end: Color::Rgb(160, 160, 160),
        progress_empty: Color::Rgb(50, 50, 50),
        progress_indicator: Color::Rgb(255, 255, 255),
        marker: Color::Rgb(220, 220, 220),
        marker_label: Color::Rgb(240, 240, 240),
        quote: Color::Rgb(180, 180, 180),
        legend_elapsed: Color::Rgb(220, 220, 220),
        legend_remaining: Color::Rgb(100, 100, 100),
    }
}

/// The light colours of the theme `contrast`.
pub open spec fn contrast_light() -> ColorScheme {
    ColorScheme {
        background: Some(Color::White),
        foreground: Color::Black,
        title: Color::Black,
        progress_start: Color::Blue,
        progress_end: Color::Blue,
        progress_empty: Color::Gray,
        progress_indicator: Color::Red,
        marker: Color::Black,
        marker_label: Color::Black,
        quote: Color::Black,
        legend_elapsed: Color::Blue,
        legend_remaining: Color::Gray,
    }
}

/// The dark colours of the theme `contrast`.
pub open spec fn contrast_dark() -> ColorScheme {
    ColorScheme {
        background: Some(Color::Black),
        foreground: Color::White,
        title: Color::White,
        progress_start: Color::Cyan,
        progress_end: Color::Cyan,
        progress_empty: Color::DarkGray,
        progress_indicator: Color::Yellow,
        marker: Color::White,
        marker_label: Color::White,
        quote: Color::White,
        legend_elapsed: Color::Cyan,
        legend_remaining: Color::DarkGray,
    }
}

/// How many themes are built in.
pub const BUILTIN_THEMES: usize = 6;

/// The name of the built-in theme at a place of the list.
pub open spec fn builtin_name(index: int) -> Seq<char> {
    if index == 0 {
        "default"@
    } else if index == 1 {
        "ocean"@
    } else if index == 2 {
        "forest"@
    } else if index == 3 {
        "sunset"@
    } else if index == 4 {
        "monochrome"@
    } else if index == 5 {
        "contrast"@
    } else {
        Seq::empty()
    }
}

/// The light colours of the built-in theme at a place of the list.
pub open spec fn builtin_light(index: int) -> ColorScheme {
    if index == 0 {
        default_light()
    } else if index == 1 {
        ocean_light()
    } else if index == 2 {
        forest_light()
    } else if index == 3 {
        sunset_light()
    } else if index == 4 {
        monochrome_light()
    } else if index == 5 {
        contrast_light()
    } else {
        default_light()
    }
}

/// The dark colours of the built-in theme at a place of the list.
pub open spec fn builtin_dark(index: int) -> ColorScheme {
    if index == 0 {
        default_dark()
    } else if index == 1 {
        ocean_dark()
    } else if index == 2 {
        forest_dark()
    } else if index == 3 {
        sunset_dark()
    } else if index == 4 {
        monochrome_dark()
    } else if index == 5 {
        contrast_dark()
    } else {
        default_dark()
    }
}

/// Whether a theme is the built-in theme at a place of the list, in its name
/// and in every colour.
pub open spec fn is_builtin(theme: Theme, index: int) -> bool {
    &&& theme.name@ == builtin_name(index)
    &&& theme.light == builtin_light(index)
    &&& theme.dark == builtin_dark(index)
}

/// The place of the first built-in theme with a name, if there is one.
pub open spec fn builtin_index(name: Seq<char>) -> Option<int> {
    if name == builtin_name(0) {
        Some(0int)
    } else if name == builtin_name(1) {
        Some(1int)
    } else if name == builtin_name(2) {
        Some(2int)
    } else if name == builtin_name(3) {
        Some(3int)
    } else if name == builtin_name(4) {
        Some(4int)
    } else if name == builtin_name(5) {
        Some(5int)
    } else {
        None
    }
}

/// The plain theme: white on the terminal's own background, cyan and blue in the dark.
pub fn get_default_theme() -> (theme: Theme)
    ensures
        is_builtin(theme, 0),
{
    Theme {
        name: String::from_str("default"),
        light: ColorScheme {
            background: None,
            foreground: Color::White,
            title: Color::White,
            progress_start: Color::White,
            progress_end: Color::White,
            progress_empty: Color::DarkGray,
            progress_indicator: Color::Yellow,
            marker: Color::White,
            marker_label: Color::White,
            quote: Color::Gray,
            legend_elapsed: Color::White,
            legend_remaining: Color::DarkGray,
        },
        dark: ColorScheme {
            background: None,
            foreground: Color::White,
            title: Color::Cyan,
            progress_start: Color::Cyan,
            progress_end: Color::Blue,
            progress_empty: Color::Rgb(40, 40, 40),
            progress_indicator: Color::Yellow,
            marker: Color::Gray,
            marker_label: Color::DarkGray,
            quote: Color::Rgb(100, 100, 100),
            legend_elapsed: Color::Cyan,
            legend_remaining: Color::Rgb(60, 60, 60),
        },
    }
}

/// Blues of the sea.
pub fn get_ocean_theme() -> (theme: Theme)
    ensures
        is_builtin(theme, 1),
{
    Theme {
        name: String::from_str("ocean"),
        light: ColorScheme {
            background: None,
            foreground: Color::Rgb(0, 102, 153),
            title: Color::Rgb(0, 102, 153),
            progress_start: Color::Rgb(0, 153, 204),
            progress_end: Color::Rgb(0, 204, 255),
            progress_empty: Color::Rgb(204, 229, 255),
            progress_indicator: Color::Rgb(255, 153, 0),
            marker: Color::Rgb(0, 102, 153),
            marker_label: Color::Rgb(0, 77, 128),
            quote: Color::Rgb(102, 153, 179),
            legend_elapsed: Color::Rgb(0, 153, 204),
            legend_remaining: Color::Rgb(153, 204, 229),
        },
        dark: ColorScheme {
            background: None,
            foreground: Color::Rgb(102, 204, 255),
            title: Color::Rgb(102, 204, 255),
            progress_start: Color::Rgb(51, 153, 255),
            progress_end: Color::Rgb(0, 255, 255),
            progress_empty: Color::Rgb(0, 51, 102),
            progress_indicator: Color::Rgb(255, 204, 0),
            marker: Color::Rgb(153, 204, 255),
            marker_label: Color::Rgb(102, 153, 204),
            quote: Color::Rgb(77, 128, 153),
            legend_elapsed: Color::Rgb(51, 153, 255),
            legend_remaining: Color::Rgb(51, 102, 153),
        },
    }
}

/// Greens of the woods.
pub fn get_forest_theme() -> (theme: Theme)
    ensures
        is_builtin(theme, 2),
{
    Theme {
        name: String::from_str("forest"),
        light: ColorScheme {
            background: None,
            foreground: Color::Rgb(34, 139, 34),
            title: Color::Rgb(34, 139, 34),
            progress_start: Color::Rgb(50, 205, 50),
            progress_end: Color::Rgb(154, 205, 50),
            progress_empty: Color::Rgb(193, 225, 193),
            progress_indicator: Color::Rgb(255, 215, 0),
            marker: Color::Rgb(34, 139, 34),
            marker_label: Color::Rgb(0, 100, 0),
            quote: Color::Rgb(107, 142, 35),
            legend_elapsed: Color::Rgb(50, 205, 50),
            legend_remaining: Color::Rgb(144, 238, 144),
        },
        dark: ColorScheme {
            background: None,
            foreground: Color::Rgb(144, 238, 144),
            title: Color::Rgb(144, 238, 144),
            progress_start: Color::Rgb(34, 139, 34),
            progress_end: Color::Rgb(0, 255, 127),
            progress_empty: Color::Rgb(25, 51, 25),
            progress_indicator: Color::Rgb(255, 255, 102),
            marker: Color::Rgb(107, 142, 35),
            marker_label: Color::Rgb(85, 107, 47),
            quote: Color::Rgb(85, 107, 47),
            legend_elapsed: Color::Rgb(34, 139, 34),
            legend_remaining: Color::Rgb(60, 90, 60),
        },
    }
}

/// Oranges and reds of the evening.
pub fn get_sunset_theme() -> (theme: Theme)
    ensures
        is_builtin(theme, 3),
{
    Theme {
        name: String::from_str("sunset"),
        light: ColorScheme {
            background: None,
            foreground: Color::Rgb(255, 99, 71),
            title: Color::Rgb(255, 99, 71),
            progress_start: Color::Rgb(255, 140, 0),
            progress_end: Color::Rgb(255, 69, 0),
            progress_empty: Color::Rgb(255, 228, 196),
            progress_indicator: Color::Rgb(255, 215, 0),
            marker: Color::Rgb(255, 99, 71),
            marker_label: Color::Rgb(205, 92, 92),
            quote: Color::Rgb(188, 143, 143),
            legend_elapsed: Color::Rgb(255, 140, 0),
            legend_remaining: Color::Rgb(255, 182, 193),
        },
        dark: ColorScheme {
            background: None,
            foreground: Color::Rgb(255, 182, 193),
            title: Color::Rgb(255, 182, 193),
            progress_start: Color::Rgb(255, 99, 71),
            progress_end: Color::Rgb(255, 20, 147),
            progress_empty: Color::Rgb(102, 51, 51),
            progress_indicator: Color::Rgb(255, 255, 102),
            marker: Color::Rgb(255, 140, 0),
            marker_label: Color::Rgb(205, 92, 92),
            quote: Color::Rgb(139, 69, 19),
            legend_elapsed: Color::Rgb(255, 99, 71),
            legend_remaining: Color::Rgb(128, 64, 64),
        },
    }
}

/// Greys only.
pub fn get_monochrome_theme() -> (theme: Theme)
    ensures
        is_builtin(theme, 4),
{
    Theme {
        name: String::from_str("monochrome"),
        light: ColorScheme {
            background: None,
            foreground: Color::Black,
            title: Color::Black,
            progress_start: Color::Rgb(20, 20, 20),
            progress_end: Color::Rgb(100, 100, 100),
            progress_empty: Color::Rgb(220, 220, 220),
            progress_indicator: Color::Rgb(0, 0, 0),
            marker: Color::Rgb(40, 40, 40),
            marker_label: Color::Rgb(20, 20, 20),
            quote: Color::Rgb(80, 80, 80),
            legend_elapsed: Color::Rgb(40, 40, 40),
            legend_remaining: Color::Rgb(160, 160, 160),
        },
        dark: ColorScheme {
            background: None,
            foreground: Color::White,
            title: Color::White,
            progress_start: Color::Rgb(220, 220, 220),
            progress_end: Color::Rgb(160, 160, 160),
            progress_empty: Color::Rgb(50, 50, 50),
            progress_indicator: Color::Rgb(255, 255, 255),
            marker: Color::Rgb(220, 220, 220),
            marker_label: Color::Rgb(240, 240, 240),
            quote: Color::Rgb(180, 180, 180),
            legend_elapsed: Color::Rgb(220, 220, 220),
            legend_remaining: Color::Rgb(100, 100, 100),
        },
    }
}

/// Strong colours on a set background, for screens that are hard to read.
pub fn get_contrast_theme() -> (theme: Theme)
    ensures
        is_builtin(theme, 5),
{
    Theme {
        name: String::from_str("contrast"),
        light: ColorScheme {
            background: Some(Color::White),
            foreground: Color::Black,
            title: Color::Black,
            progress_start: Color::Blue,
            progress_end: Color::Blue,
            progress_empty: Color::Gray,
            progress_indicator: Color::Red,
            marker: Color::Black,
            marker_label: Color::Black,
            quote: Color::Black,
            legend_elapsed: Color::Blue,
            legend_remaining: Color::Gray,
        },
        dark: ColorScheme {
            background: Some(Color::Black),
            foreground: Color::White,
            title: Color::White,
            progress_start: Color::Cyan,
            progress_end: Color::Cyan,
            progress_empty: Color::DarkGray,
            progress_indicator: Color::Yellow,
            marker: Color::White,
            marker_label: Color::White,
            quote: Color::White,
            legend_elapsed: Color::Cyan,
            legend_remaining: Color::DarkGray,
        },
    }
}

/// All built-in themes, in the order in which they are cycled through.
pub fn get_all_themes() -> (themes: Vec<Theme>)
    ensures
        themes@.len() == BUILTIN_THEMES,
        forall|index: int|
            0 <= index < themes@.len() ==> is_builtin(#[trigger] themes@[index], index),
{
    let mut themes: Vec<Theme> = Vec::new();
    themes.push(get_default_theme());
    themes.push(get_ocean_theme());
    themes.push(get_forest_theme());
    themes.push(get_sunset_theme());
    themes.push(get_monochrome_theme());
    themes.push(get_contrast_theme());
    themes
}

/// The place in `themes` of the first theme with a name, if there is one.
pub open spec fn named_at(themes: Seq<Theme>, name: Seq<char>) -> Option<int>
    decreases themes.len(),
{
    if themes.len() == 0 {
        None
    } else {
        match named_at(themes.drop_last(), name) {
            Some(index) => Some(index),
            None => if themes.last().name@ == name {
                Some(themes.len() - 1)
            } else {
                None
            },
        }
    }
}

/// The first theme of a list with a name is the first place where the name
/// stands.
pub proof fn lemma_named_at(themes: Seq<Theme>, name: Seq<char>)
    ensures
        match named_at(themes, name) {
            Some(index) => 0 <= index < themes.len() && themes[index].name@ == name && forall|
                earlier: int,
            | 0 <= earlier < index ==> (#[trigger] themes[earlier]).name@ != name,
            None => forall|index: int|
                0 <= index < themes.len() ==> (#[trigger] themes[index]).name@ != name,
        },
    decreases themes.len(),
{
    if themes.len() > 0 {
        let shorter = themes.drop_last();
        lemma_named_at(shorter, name);
        assert forall|index: int| 0 <= index < shorter.len() implies shorter[index]
            == themes[index] by {}
    }
}

/// Where in a list of themes the first one with a name stands.
pub fn position_of(themes: &Vec<Theme>, name: &str) -> (found: Option<usize>)
    ensures
        match found {
            Some(index) => named_at(themes@, name@) == Some(index as int),
            None => named_at(themes@, name@).is_none(),
        },
{
    let wanted = String::from_str(name);
    let mut index: usize = 0;
    while index < themes.len()
        invariant
            index <= themes@.len(),
            wanted@ == name@,
            forall|earlier: int|
                0 <= earlier < index ==> (#[trigger] themes@[earlier]).name@ != name@,
        decreases themes@.len() - index,
    {
        if themes[index].name == wanted {
            proof {
                lemma_named_at(themes@, name@);
            }
            return Some(index);
        }
        index += 1;
    }
    proof {
        lemma_named_at(themes@, name@);
    }
    None
}

/// The built-in theme with a name, if there is one.
pub fn get_theme_by_name(name: &str) -> (found: Option<Theme>)
    ensures
        match builtin_index(name@) {
            Some(index) => found.is_some() && is_builtin(found.unwrap(), index),
            None => found.is_none(),
        },
{
    let mut themes = get_all_themes();
    proof {
        lemma_named_at(themes@, name@);
        assert(themes@[0].name@ == builtin_name(0));
        assert(themes@[1].name@ == builtin_name(1));
        assert(themes@[2].name@ == builtin_name(2));
        assert(themes@[3].name@ == builtin_name(3));
        assert(themes@[4].name@ == builtin_name(4));
        assert(themes@[5].name@ == builtin_name(5));
    }
    match position_of(&themes, name) {
        Some(index) => Some(themes.remove(index)),
        None => None,
    }
}

/// The names of the built-in themes, in their order.
pub fn get_theme_names() -> (names: Vec<String>)
    ensures
        names@.len() == BUILTIN_THEMES,
        forall|index: int|
            0 <= index < names@.len() ==> (#[trigger] names@[index])@ == builtin_name(index),
{
    let themes = get_all_themes();
    let mut names: Vec<String> = Vec::new();
    let mut index: usize = 0;
    while index < themes.len()
        invariant
            index <= themes@.len(),
            themes@.len() == BUILTIN_THEMES,
            names@.len() == index,
            forall|k: int| 0 <= k < themes@.len() ==> is_builtin(#[trigger] themes@[k], k),
            forall|k: int| 0 <= k < index ==> (#[trigger] names@[k])@ == builtin_name(k),
        decreases themes@.len() - index,
    {
        names.push(themes[index].name.clone());
        index += 1;
    }
    names
}

/// The mode that a lower-case name stands for.
pub open spec fn mode_named(lowered: Seq<char>) -> Option<ThemeMode> {
    if lowered == "light"@ {
        Some(ThemeMode::Light)
    } else if lowered == "dark"@ {
        Some(ThemeMode::Dark)
    } else {
        None
    }
}

/// What reading `given` as a mode gives, where `lowered` is its lower-case
/// form: the mode of that name, or a message that holds what was given.
pub open spec fn mode_read(
    lowered: Seq<char>,
    given: Seq<char>,
    result: Result<ThemeMode, String>,
) -> bool {
    match mode_named(lowered) {
        Some(mode) => result == Ok::<ThemeMode, String>(mode),
        None => result is Err && result->Err_0@ == "Invalid theme mode: "@ + given,
    }
}

impl ThemeMode {
    /// Reads a mode from the lower-case form of what was given.
    pub fn from_lowercase(lowered: &str, given: &str) -> (result: Result<ThemeMode, String>)
        ensures
            mode_read(lowered@, given@, result),
    {
        let lowered = String::from_str(lowered);
        if lowered == String::from_str("light") {
            Ok(ThemeMode::Light)
        } else if lowered == String::from_str("dark") {
            Ok(ThemeMode::Dark)
        } else {
            Err(String::from_str("Invalid theme mode: ").concat(given))
        }
    }

    /// Reads a mode from its name, `light` or `dark`, in any case of letters.
    pub fn from_str(s: &str) -> (result: Result<ThemeMode, String>)
        ensures
            mode_read(lowercase(s@), s@, result),
    {
        let lowered = to_lowercase(s);
        ThemeMode::from_lowercase(lowered.as_str(), s)
    }
}

} // verus!
