use tran::json::JsonValue;
use tran::theme::{detect_terminal_theme, hex_rgb, settings_text_theme, windows_terminal_theme, TermColor, TerminalHints, ThemeMode, WindowsTerminalTheme};

fn hints(colorfgbg: Option<&str>, term: Option<&str>, bat: Option<&str>, wt: Option<ThemeMode>) -> TerminalHints {
    TerminalHints {
        colorfgbg: colorfgbg.map(|s| s.to_string()),
        term_theme: term.map(|s| s.to_string()),
        bat_theme: bat.map(|s| s.to_string()),
        windows_terminal: wt,
    }
}

#[test]
fn theme_mode_parsing() {
    assert_eq!("dark".parse::<ThemeMode>().unwrap(), ThemeMode::Dark);
    assert_eq!("light".parse::<ThemeMode>().unwrap(), ThemeMode::Light);
    assert_eq!("auto".parse::<ThemeMode>().unwrap(), ThemeMode::Auto);
    assert!("unknown".parse::<ThemeMode>().is_err());
}

#[test]
fn fixed_themes_define_distinct_palettes() {
    let dark = ThemeMode::Dark.tui(&TerminalHints::none());
    let light = ThemeMode::Light.tui(&TerminalHints::none());
    assert_eq!(dark.background, TermColor::Reset);
    assert_eq!(light.background, TermColor::Reset);
    assert_ne!(dark.foreground, light.foreground);
}

#[test]
fn auto_theme_resolves_to_valid_theme() {
    let resolved = ThemeMode::Auto.resolved(&TerminalHints::none());
    assert!(resolved == ThemeMode::Dark || resolved == ThemeMode::Light);
}

#[test]
fn fixed_themes_have_distinct_foreground_palettes() {
    let dark = ThemeMode::Dark.cli(&TerminalHints::none());
    let light = ThemeMode::Light.cli(&TerminalHints::none());
    assert_ne!(dark.foreground, light.foreground);
}

#[test]
fn theme_parsing_ignores_case_and_spaces() {
    assert_eq!(" Light ".parse::<ThemeMode>().unwrap(), ThemeMode::Light);
    assert_eq!("DARK".parse::<ThemeMode>().unwrap(), ThemeMode::Dark);
    assert_eq!("unknown".parse::<ThemeMode>().unwrap_err(), "未知主题: unknown");
}

#[test]
fn theme_names_round_trip() {
    for m in [ThemeMode::Auto, ThemeMode::Dark, ThemeMode::Light] {
        assert_eq!(m.to_string().parse::<ThemeMode>().unwrap(), m);
    }
    assert_eq!(ThemeMode::Dark.to_string(), "dark");
}

#[test]
fn colorfgbg_background_decides_first() {
    assert_eq!(detect_terminal_theme(&hints(Some("0;15"), Some("dark"), None, None)), ThemeMode::Light);
    assert_eq!(detect_terminal_theme(&hints(Some("15;0"), None, None, None)), ThemeMode::Dark);
    assert_eq!(detect_terminal_theme(&hints(Some("15;8"), None, None, None)), ThemeMode::Dark);
    assert_eq!(detect_terminal_theme(&hints(Some("0;7"), None, None, None)), ThemeMode::Light);
}

#[test]
fn unknown_background_falls_through_to_names() {
    assert_eq!(detect_terminal_theme(&hints(Some("0;12"), Some("Solarized-Light"), None, None)), ThemeMode::Light);
    assert_eq!(detect_terminal_theme(&hints(None, Some("my DARK theme"), None, None)), ThemeMode::Dark);
    assert_eq!(detect_terminal_theme(&hints(None, None, Some("GitHub-light"), None)), ThemeMode::Light);
    assert_eq!(detect_terminal_theme(&hints(None, None, None, Some(ThemeMode::Light))), ThemeMode::Light);
    assert_eq!(detect_terminal_theme(&TerminalHints::none()), ThemeMode::Dark);
}

#[test]
fn resolved_keeps_fixed_modes() {
    let h = hints(Some("0;15"), None, None, None);
    assert_eq!(ThemeMode::Dark.resolved(&h), ThemeMode::Dark);
    assert_eq!(ThemeMode::Auto.resolved(&h), ThemeMode::Light);
}

fn s(x: &str) -> JsonValue {
    JsonValue::String(x.to_string())
}

fn obj(members: Vec<(&str, JsonValue)>) -> JsonValue {
    JsonValue::Object(members.into_iter().map(|(k, v)| (k.to_string(), v)).collect())
}

#[test]
fn windows_terminal_settings_theme() {
    let fixed = obj(vec![("theme", s("Light"))]);
    assert!(matches!(windows_terminal_theme(&fixed), WindowsTerminalTheme::Fixed(ThemeMode::Light)));
    let scheme = obj(vec![
        ("profiles", obj(vec![("defaults", obj(vec![("colorScheme", s("One Half Light"))]))])),
        (
            "schemes",
            JsonValue::Array(vec![
                obj(vec![("name", s("Campbell")), ("background", s("#0C0C0C"))]),
                obj(vec![("name", s("One Half Light")), ("background", s("#FAFAFA"))]),
            ]),
        ),
    ]);
    match windows_terminal_theme(&scheme) {
        WindowsTerminalTheme::SchemeBackground(b) => assert_eq!(b, "#FAFAFA"),
        other => panic!("unexpected: {:?}", other),
    }
    assert!(matches!(windows_terminal_theme(&obj(vec![])), WindowsTerminalTheme::Fixed(ThemeMode::Dark)));
}

#[test]
fn reads_hex_colors() {
    assert_eq!(hex_rgb("#FAFAFA"), Some((250, 250, 250)));
    assert_eq!(hex_rgb(" ##0c0C0c "), Some((12, 12, 12)));
    assert_eq!(hex_rgb("+f+f+f"), Some((15, 15, 15)));
    assert_eq!(hex_rgb("#FFF"), None);
    assert_eq!(hex_rgb("#GG0000"), None);
    assert_eq!(hex_rgb("#-10000"), None);
    assert_eq!(hex_rgb("ééé"), None);
}

#[test]
fn windows_settings_text_is_read() {
    assert!(matches!(settings_text_theme(r#"{"theme": "dark"}"#), Some(WindowsTerminalTheme::Fixed(ThemeMode::Dark))));
    let text = r##"{"profiles": {"defaults": {"colorScheme": "Day"}},
                   "schemes": [{"name": "Day", "background": "#FFFFFF"}]}"##;
    match settings_text_theme(text) {
        Some(WindowsTerminalTheme::SchemeBackground(b)) => assert_eq!(b, "#FFFFFF"),
        other => panic!("unexpected: {:?}", other),
    }
    assert!(settings_text_theme("{ not json").is_none());
    assert!(matches!(settings_text_theme("[]"), Some(WindowsTerminalTheme::Fixed(ThemeMode::Dark))));
}
