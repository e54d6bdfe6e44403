use t_meter::config::{
    default_bed_time, default_theme_mode, default_theme_name, default_wake_up_time, Config,
    MarkerConfig, ProgressBarStyle,
};
use t_meter::theme::{get_default_theme, get_forest_theme, ThemeMode};

fn stored(theme: &str, mode: &str) -> Config {
    Config {
        theme_name: theme.to_string(),
        theme_mode: mode.to_string(),
        progress_bar_style: ProgressBarStyle::Gradient,
        wake_up_time: "06:00".to_string(),
        bed_time: "22:00".to_string(),
        markers: vec![MarkerConfig { label: "Lunch".to_string(), time: "13:00".to_string() }],
    }
}

#[test]
fn bar_styles_go_round() {
    assert_eq!(ProgressBarStyle::Gradient.cycle(), ProgressBarStyle::Grainy);
    assert_eq!(ProgressBarStyle::Grainy.cycle(), ProgressBarStyle::Analog);
    assert_eq!(ProgressBarStyle::Analog.cycle(), ProgressBarStyle::Gradient);
    assert_eq!(ProgressBarStyle::Grainy.cycle().cycle().cycle(), ProgressBarStyle::Grainy);
}

#[test]
fn the_defaults_are_as_documented() {
    assert_eq!(ProgressBarStyle::default(), ProgressBarStyle::Analog);
    assert_eq!(default_theme_name(), "default");
    assert_eq!(default_theme_mode(), "light");
    assert_eq!(default_wake_up_time(), "07:00");
    assert_eq!(default_bed_time(), "23:00");
    let config = Config::default();
    assert_eq!(config.theme_name, "default");
    assert_eq!(config.theme_mode, "light");
    assert_eq!(config.progress_bar_style, ProgressBarStyle::Analog);
    assert_eq!(config.wake_up_time, "07:00");
    assert_eq!(config.bed_time, "23:00");
    assert_eq!(config.markers, Vec::<MarkerConfig>::new());
}

#[test]
fn the_first_configuration_that_was_read_is_taken() {
    let first = stored("ocean", "dark");
    let second = stored("forest", "light");
    assert_eq!(Config::load(vec![Some(first.clone()), Some(second.clone())]), first);
    assert_eq!(Config::load(vec![None, Some(second.clone()), Some(first.clone())]), second);
    assert_eq!(Config::load(vec![None, None, Some(first.clone())]), first);
}

#[test]
fn without_a_configuration_the_defaults_are_taken() {
    assert_eq!(Config::load(Vec::new()), Config::default());
    assert_eq!(Config::load(vec![None, None, None]), Config::default());
}

#[test]
fn the_configured_theme_is_looked_up() {
    assert_eq!(stored("forest", "light").get_theme(), get_forest_theme());
    assert_eq!(stored("default", "light").get_theme(), get_default_theme());
    assert_eq!(stored("no such theme", "light").get_theme(), get_default_theme());
    assert_eq!(stored("", "light").get_theme(), get_default_theme());
}

#[test]
fn the_configured_mode_is_read() {
    assert_eq!(stored("ocean", "dark").get_theme_mode(), ThemeMode::Dark);
    assert_eq!(stored("ocean", "Dark").get_theme_mode(), ThemeMode::Dark);
    assert_eq!(stored("ocean", "light").get_theme_mode(), ThemeMode::Light);
    assert_eq!(stored("ocean", "twilight").get_theme_mode(), ThemeMode::Light);
    assert_eq!(stored("ocean", "").get_theme_mode(), ThemeMode::Light);
}
