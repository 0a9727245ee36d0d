use copyit::theme::Theme;

#[test]
fn has_at_least_twenty_new_themes() {
    assert!(Theme::all().len() >= 27);
}

#[test]
fn all_themes_round_trip_through_display_and_from_str() {
    for theme in Theme::all() {
        let label = theme.name().to_string();
        let parsed: Theme = label.parse().unwrap_or_else(|_| {
            panic!("could not parse Theme::to_string() output {label:?} back via FromStr")
        });
        assert_eq!(theme, parsed, "round-trip mismatch for {label:?}");
    }
}

#[test]
fn all_theme_names_are_unique() {
    let mut names: Vec<String> = Theme::all().iter().map(|t| t.name().to_string()).collect();
    let before = names.len();
    names.sort();
    names.dedup();
    assert_eq!(before, names.len(), "duplicate theme display names found");
}

#[test]
fn theme_names_parse_ignoring_case_and_underscores() {
    assert_eq!(Theme::from_name("nord"), Some(Theme::Nord));
    assert_eq!(Theme::from_name("SOLARIZED_DARK"), Some(Theme::SolarizedDark));
    assert_eq!(Theme::from_name("Tokyo Night Storm"), Some(Theme::TokyoNightStorm));
    assert_eq!(Theme::from_name("no such theme"), None);
    assert!("".parse::<Theme>().is_err());
}

#[test]
fn the_selector_lists_dark_first_and_has_thirty_seven_themes() {
    let all = Theme::all();
    assert_eq!(all.len(), 37);
    assert_eq!(all[0], Theme::Dark);
    assert_eq!(Theme::Dark.name(), "Dark");
    assert_eq!(Theme::SynthwaveEighties.name(), "Synthwave '84");
}

#[test]
fn theme_names_parse_back_in_capitals_and_unknown_names_are_refused() {
    for theme in Theme::all() {
        let upper = theme.name().to_uppercase();
        assert_eq!(upper.parse::<Theme>(), Ok(theme), "capitals of {upper:?}");
    }
    assert_eq!("no-such-theme".parse::<Theme>(), Err(()));
}
