use clockdate::config::ConfigError;
use clockdate::Config;

fn one_source(text: &str) -> Vec<Option<String>> {
    vec![Some(text.to_string())]
}

#[test]
fn full_defaults_when_no_source_exists() {
    let cfg = Config::load_or_default(&vec![]);
    assert_eq!(cfg.colors.time, "Blue");
    assert_eq!(cfg.colors.date, "DarkGray");
    assert_eq!(cfg.window.margin_top, 10);
    assert_eq!(cfg.window.margin_right, 10);
    assert_eq!(cfg.window.width, 400);
    assert_eq!(cfg.window.height, 180);
    assert_eq!(cfg.window.monitor, "DP-1");
    assert_eq!(cfg.window.date_offset, -65);
    assert_eq!(cfg.fonts.time_size, 12);
    assert_eq!(cfg.fonts.date_size, 10);
}

#[test]
fn full_defaults_when_all_sources_unreadable() {
    let cfg = Config::load_or_default(&vec![None, None]);
    assert_eq!(cfg.colors.time, "Blue");
    assert_eq!(cfg.window.width, 400);
}

#[test]
fn missing_fields_fall_back_independently() {
    let cfg = Config::load_or_default(&one_source(
        "[colors]\ntime = \"Red\"\ndate = \"Green\"\n\n[window]\nwidth = 500\n",
    ));
    assert_eq!(cfg.colors.time, "Red");
    assert_eq!(cfg.colors.date, "Green");
    assert_eq!(cfg.window.width, 500);
    assert_eq!(cfg.window.margin_top, 10);
    assert_eq!(cfg.window.margin_right, 10);
    assert_eq!(cfg.window.height, 180);
    assert_eq!(cfg.window.monitor, "DP-1");
    assert_eq!(cfg.window.date_offset, -65);
    assert_eq!(cfg.fonts.time_size, 12);
    assert_eq!(cfg.fonts.date_size, 10);
}

#[test]
fn fonts_section_overrides_only_what_it_names() {
    let cfg = Config::load_or_default(&one_source(
        "[colors]\ntime = \"#A020F0\"\ndate = \"White\"\n\n[fonts]\ntime_size = 20\n",
    ));
    assert_eq!(cfg.fonts.time_size, 20);
    assert_eq!(cfg.fonts.date_size, 10);
    assert_eq!(cfg.window.width, 400);
}

#[test]
fn window_section_full_override() {
    let cfg = Config::load_or_default(&one_source(
        "[colors]\ntime = \"Blue\"\ndate = \"Blue\"\n\n[window]\nmargin_top = 1\nmargin_right = 2\nwidth = 3\nheight = 4\nmonitor = \"HDMI-1\"\ndate_offset = -5\n",
    ));
    assert_eq!(cfg.window.margin_top, 1);
    assert_eq!(cfg.window.margin_right, 2);
    assert_eq!(cfg.window.width, 3);
    assert_eq!(cfg.window.height, 4);
    assert_eq!(cfg.window.monitor, "HDMI-1");
    assert_eq!(cfg.window.date_offset, -5);
}

#[test]
fn malformed_toml_is_skipped() {
    let cfg = Config::load_or_default(&one_source("not = [valid"));
    assert_eq!(cfg.colors.time, "Blue");
}

#[test]
fn source_without_colors_is_skipped() {
    let cfg = Config::load_or_default(&one_source("[window]\nwidth = 500\n"));
    assert_eq!(cfg.colors.time, "Blue");
    assert_eq!(cfg.window.width, 400);
}

#[test]
fn source_with_wrongly_typed_field_is_skipped() {
    let cfg = Config::load_or_default(&one_source(
        "[colors]\ntime = \"Red\"\ndate = \"Green\"\n\n[window]\nwidth = \"wide\"\n",
    ));
    assert_eq!(cfg.colors.time, "Blue");
}

#[test]
fn source_with_out_of_range_integer_is_skipped() {
    let cfg = Config::load_or_default(&one_source(
        "[colors]\ntime = \"Red\"\ndate = \"Green\"\n\n[window]\nwidth = 99999999999\n",
    ));
    assert_eq!(cfg.colors.time, "Blue");
}

#[test]
fn later_candidate_is_used_when_earlier_fails() {
    let sources = vec![
        Some("garbage {{".to_string()),
        None,
        Some("[colors]\ntime = \"Cyan\"\ndate = \"Gray\"\n".to_string()),
    ];
    let cfg = Config::load_or_default(&sources);
    assert_eq!(cfg.colors.time, "Cyan");
    assert_eq!(cfg.colors.date, "Gray");
}

#[test]
fn earlier_candidate_wins_over_later() {
    let sources = vec![
        Some("[colors]\ntime = \"Cyan\"\ndate = \"Gray\"\n".to_string()),
        Some("[colors]\ntime = \"Red\"\ndate = \"Red\"\n".to_string()),
    ];
    let cfg = Config::load_or_default(&sources);
    assert_eq!(cfg.colors.time, "Cyan");
}

#[test]
fn load_reports_not_found_when_nothing_resolves() {
    assert!(matches!(Config::load(&vec![]), Err(ConfigError::NotFound)));
    assert!(matches!(Config::load(&vec![None]), Err(ConfigError::NotFound)));
    assert!(matches!(
        Config::load(&vec![Some("::: not toml :::".to_string())]),
        Err(ConfigError::NotFound)
    ));
}

#[test]
fn load_or_default_never_fails_on_garbage() {
    let garbage: Vec<Option<String>> = vec![
        Some(String::new()),
        Some("\u{0}\u{1}\u{2}".to_string()),
        Some("[colors]".to_string()),
        Some("time = 3".to_string()),
        Some("[[colors]]\ntime = \"Red\"".to_string()),
        None,
    ];
    let cfg = Config::load_or_default(&garbage);
    assert_eq!(cfg.colors.time, "Blue");
}

#[test]
fn loaded_configuration_passes_through_unchanged() {
    let sources = vec![
        None,
        Some("[colors]\ntime = \"Purple\"\ndate = \"Gray\"\n\n[window]\nheight = 7\n".to_string()),
    ];
    let loaded = Config::load(&sources).expect("the second candidate resolves");
    let or_default = Config::load_or_default(&sources);
    assert_eq!(loaded.colors.time, or_default.colors.time);
    assert_eq!(loaded.colors.date, or_default.colors.date);
    assert_eq!(loaded.window.height, or_default.window.height);
    assert_eq!(loaded.window.width, or_default.window.width);
    assert_eq!(loaded.window.monitor, or_default.window.monitor);
    assert_eq!(loaded.fonts.time_size, or_default.fonts.time_size);
    assert_eq!(or_default.window.height, 7);
}

#[test]
fn default_value_functions_match_documented_defaults() {
    assert_eq!(clockdate::config::default_margin_top(), 10);
    assert_eq!(clockdate::config::default_margin_right(), 10);
    assert_eq!(clockdate::config::default_width(), 400);
    assert_eq!(clockdate::config::default_height(), 180);
    assert_eq!(clockdate::config::default_time_size(), 12);
    assert_eq!(clockdate::config::default_date_size(), 10);
    assert_eq!(clockdate::config::default_monitor(), "DP-1");
    assert_eq!(clockdate::config::default_date_offset(), -65);
}
