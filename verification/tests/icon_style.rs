use macos_liquid_glass::appearance::StockAppearance;
use macos_liquid_glass::icon_style::{
    current_from_sources, resolve, IconAppearanceToken, IconStyle, Interval, Reconcile,
    ThemeMode, WidgetStyle,
};

/// A colour as the tests build it: sRGB red, green, blue and alpha.
type Colour = (f64, f64, f64, f64);

fn colour(r: f64, g: f64, b: f64, a: f64) -> Colour {
    (r, g, b, a)
}

/// The lenient integer path, as the live read uses it.
fn style(theme: i64) -> WidgetStyle<Colour> {
    WidgetStyle::from_token(resolve(theme), None)
}

#[test]
fn every_token_maps_to_its_documented_enum() {
    let expected = [
        ("RegularAutomatic", 0),
        ("RegularLight", 1),
        ("RegularDark", 2),
        ("ClearAutomatic", 3),
        ("ClearLight", 4),
        ("ClearDark", 5),
        ("TintedAutomatic", 6),
        ("TintedLight", 7),
        ("TintedDark", 8),
    ];
    for (name, raw) in expected {
        let token: IconAppearanceToken = name.parse().expect("a documented token");
        assert_eq!(token.raw(), raw, "{name}");
        assert_eq!(token.name(), name, "round-trip");
        assert_eq!(IconAppearanceToken::try_from(raw), Ok(token), "{raw}");
    }
}

#[test]
fn all_is_complete_and_in_preference_order() {
    assert_eq!(IconAppearanceToken::ALL.len(), 9);
    for (i, token) in IconAppearanceToken::ALL.iter().copied().enumerate() {
        assert_eq!(token.raw(), i as i64, "{} is out of order", token.name());
    }
}

#[test]
fn dark_is_not_a_token() {
    let err = "Dark".parse::<IconAppearanceToken>().unwrap_err();
    assert_eq!(err.found(), "Dark");
}

#[test]
fn an_unrecognised_token_string_has_no_enum() {
    assert!("Nonsense".parse::<IconAppearanceToken>().is_err());
}

#[test]
fn the_two_error_domains_report_their_own_input() {
    let bad_name = "Nonsense".parse::<IconAppearanceToken>().unwrap_err();
    assert_eq!(
        bad_name.to_string(),
        r#"unknown icon appearance token "Nonsense""#
    );

    let bad_value = IconAppearanceToken::try_from(9999).unwrap_err();
    assert_eq!(bad_value.found(), 9999);
    assert_eq!(
        bad_value.to_string(),
        "icon appearance theme 9999 is out of range 0..=8"
    );
}

#[test]
fn out_of_range_integers_fall_back_to_regular_automatic() {
    let s = style(99);
    assert_eq!(s.style(), IconStyle::Regular);
    assert_eq!(s.mode(), ThemeMode::Auto);
    assert_eq!(s.to_string(), "Dark ▸ Auto");
    assert!(!s.is_tinted());
}

#[test]
fn the_string_and_integer_fallbacks_differ() {
    assert_eq!(resolve(9999), IconAppearanceToken::RegularAutomatic);
    assert_eq!(
        "garbage"
            .parse::<IconAppearanceToken>()
            .unwrap_or(IconAppearanceToken::RegularLight),
        IconAppearanceToken::RegularLight
    );
    assert_ne!(
        IconAppearanceToken::RegularAutomatic,
        IconAppearanceToken::RegularLight
    );
}

#[test]
fn only_the_tinted_family_carries_a_tint() {
    for theme in 0..=5 {
        assert!(!style(theme).is_tinted());
    }
    for theme in 6..=8 {
        assert!(style(theme).is_tinted());
    }
}

#[test]
fn regular_automatic_and_regular_light_display_differently() {
    assert_eq!(style(0).to_string(), "Dark ▸ Auto");
    assert_eq!(style(1).to_string(), "Default");
    assert_eq!(style(2).to_string(), "Dark");
}

#[test]
fn display_carries_the_mode_for_clear_and_tinted() {
    assert_eq!(style(3).to_string(), "Clear ▸ Auto");
    assert_eq!(style(4).to_string(), "Clear ▸ Light");
    assert_eq!(style(5).to_string(), "Clear ▸ Dark");
    assert_eq!(style(8).to_string(), "Tinted ▸ Dark");
}

#[test]
fn forced_appearance_names_match_the_mode() {
    for theme in [1, 4, 7] {
        let a = style(theme)
            .appearance()
            .unwrap_or_else(|| panic!("theme {theme} must force an appearance"));
        assert_eq!(a, StockAppearance::Aqua, "theme {theme} must force Aqua");
    }
    for theme in [2, 5, 8] {
        let a = style(theme)
            .appearance()
            .unwrap_or_else(|| panic!("theme {theme} must force an appearance"));
        assert_eq!(a, StockAppearance::DarkAqua, "theme {theme} must force DarkAqua");
    }
}

#[test]
fn each_theme_enum_maps_to_its_documented_family_and_mode() {
    let expected = [
        (0, IconStyle::Regular, ThemeMode::Auto),
        (1, IconStyle::Regular, ThemeMode::Light),
        (2, IconStyle::RegularDark, ThemeMode::Dark),
        (3, IconStyle::Clear, ThemeMode::Auto),
        (4, IconStyle::Clear, ThemeMode::Light),
        (5, IconStyle::Clear, ThemeMode::Dark),
        (6, IconStyle::Tinted, ThemeMode::Auto),
        (7, IconStyle::Tinted, ThemeMode::Light),
        (8, IconStyle::Tinted, ThemeMode::Dark),
        (99, IconStyle::Regular, ThemeMode::Auto),
        (-1, IconStyle::Regular, ThemeMode::Auto),
    ];
    for (theme, want_style, want_mode) in expected {
        let s = style(theme);
        assert_eq!(s.style(), want_style, "theme {theme} family");
        assert_eq!(s.mode(), want_mode, "theme {theme} mode");
    }
}

#[test]
fn widget_style_eq_separates_mode_and_tint() {
    assert_ne!(style(4), style(5), "Clear/Light must not equal Clear/Dark");

    let red = colour(1.0, 0.0, 0.0, 1.0);
    let red2 = colour(1.0, 0.0, 0.0, 1.0);
    let blue = colour(0.0, 0.0, 1.0, 1.0);

    let t1 = WidgetStyle::from_token(IconAppearanceToken::TintedDark, Some(red));
    let t2 = WidgetStyle::from_token(IconAppearanceToken::TintedDark, Some(red2));
    let t3 = WidgetStyle::from_token(IconAppearanceToken::TintedDark, Some(blue));
    let t4 = WidgetStyle::from_token(IconAppearanceToken::TintedDark, None);

    assert_eq!(t1, t2, "equal colours must compare equal");
    assert_ne!(t1, t3, "different colours must compare unequal");
    assert_ne!(t1, t4, "Some(tint) must not equal None");
}

#[test]
fn the_tint_reaches_exactly_the_tinted_themes() {
    for theme in [0, 1, 2, 3, 4, 5, 6, 7, 8, 99] {
        let c = colour(0.0, 1.0, 0.0, 1.0);
        let s = WidgetStyle::from_token(resolve(theme), Some(c));
        assert_eq!(
            s.tint().is_some(),
            (6..=8).contains(&theme),
            "theme {theme}: tint must reach exactly the Tinted family"
        );
    }
}

#[test]
fn auto_inherits_rather_than_forcing_an_appearance() {
    assert!(style(0).appearance().is_none());
    assert!(style(3).appearance().is_none());
    assert!(style(6).appearance().is_none());
    assert!(style(4).appearance().is_some());
    assert!(style(5).appearance().is_some());
}

#[test]
fn is_dark_resolves_auto_but_forced_modes_ignore_the_ambient() {
    let light = Some(StockAppearance::Aqua);
    let dark = Some(StockAppearance::DarkAqua);

    assert!(!style(3).is_dark(light));
    assert!(style(3).is_dark(dark));

    assert!(!style(4).is_dark(dark), "Clear ▸ Light stays light");
    assert!(style(5).is_dark(light), "Clear ▸ Dark stays dark");
}

#[test]
fn the_default_reconcile_is_the_measured_interval() {
    assert_eq!(
        Reconcile::default(),
        Reconcile::Every(Interval::from_millis(750))
    );
}

#[test]
fn an_ambient_matching_neither_stock_appearance_is_light_under_auto() {
    assert!(!style(0).is_dark(None));
    assert!(style(2).is_dark(None));
}

#[test]
fn a_tinted_style_keeps_the_colour_it_was_given() {
    let c = colour(0.5, 0.25, 0.0, 1.0);
    let s = WidgetStyle::from_token(IconAppearanceToken::TintedLight, Some(c));
    assert_eq!(s.tint(), Some(&c));
    assert_eq!(s.token(), IconAppearanceToken::TintedLight);
    let copy = s.clone();
    assert_eq!(copy, s);
}

#[test]
fn every_token_is_named_and_numbered_as_documented() {
    type T = IconAppearanceToken;
    let table = [
        (T::RegularAutomatic, "RegularAutomatic", IconStyle::Regular, ThemeMode::Auto),
        (T::RegularLight, "RegularLight", IconStyle::Regular, ThemeMode::Light),
        (T::RegularDark, "RegularDark", IconStyle::RegularDark, ThemeMode::Dark),
        (T::ClearAutomatic, "ClearAutomatic", IconStyle::Clear, ThemeMode::Auto),
        (T::ClearLight, "ClearLight", IconStyle::Clear, ThemeMode::Light),
        (T::ClearDark, "ClearDark", IconStyle::Clear, ThemeMode::Dark),
        (T::TintedAutomatic, "TintedAutomatic", IconStyle::Tinted, ThemeMode::Auto),
        (T::TintedLight, "TintedLight", IconStyle::Tinted, ThemeMode::Light),
        (T::TintedDark, "TintedDark", IconStyle::Tinted, ThemeMode::Dark),
    ];
    for (i, (token, name, family, mode)) in table.into_iter().enumerate() {
        assert_eq!(token.name(), name);
        assert_eq!(token.raw(), i as i64);
        assert_eq!(token.style(), family);
        assert_eq!(token.mode(), mode);
        assert_eq!(token.is_tinted(), family == IconStyle::Tinted);
        assert_eq!(IconAppearanceToken::parse_name(name), Ok(token));
        assert_eq!(IconAppearanceToken::from_raw(i as i64), Ok(token));
    }
}

#[test]
fn the_mode_words_are_as_displayed() {
    assert_eq!(ThemeMode::Light.as_str(), "Light");
    assert_eq!(ThemeMode::Dark.as_str(), "Dark");
    assert_eq!(ThemeMode::Auto.as_str(), "Auto");
}

#[test]
fn tinted_light_and_auto_display_their_mode() {
    assert_eq!(style(6).to_string(), "Tinted ▸ Auto");
    assert_eq!(style(7).to_string(), "Tinted ▸ Light");
}

#[test]
fn negative_and_extreme_theme_values_are_reported_in_full() {
    let e = IconAppearanceToken::try_from(-1).unwrap_err();
    assert_eq!(e.to_string(), "icon appearance theme -1 is out of range 0..=8");
    let e = IconAppearanceToken::try_from(9).unwrap_err();
    assert_eq!(e.to_string(), "icon appearance theme 9 is out of range 0..=8");
    let e = IconAppearanceToken::try_from(i64::MIN).unwrap_err();
    assert_eq!(
        e.to_string(),
        "icon appearance theme -9223372036854775808 is out of range 0..=8"
    );
    let e = IconAppearanceToken::try_from(i64::MAX).unwrap_err();
    assert_eq!(e.found(), i64::MAX);
}

#[test]
fn an_unknown_token_quotes_what_it_found() {
    let e = "say \"hi\"".parse::<IconAppearanceToken>().unwrap_err();
    assert_eq!(e.found(), "say \"hi\"");
    assert_eq!(e.to_string(), r#"unknown icon appearance token "say \"hi\"""#);
    assert!("regularlight".parse::<IconAppearanceToken>().is_err());
    assert!("".parse::<IconAppearanceToken>().is_err());
}

#[test]
fn the_preference_string_decides_over_the_configuration() {
    let s: WidgetStyle<Colour> = current_from_sources(Some("ClearDark"), Some(7), None);
    assert_eq!(s.token(), IconAppearanceToken::ClearDark);
    let s: WidgetStyle<Colour> = current_from_sources(Some("garbage"), Some(7), None);
    assert_eq!(s.token(), IconAppearanceToken::RegularLight);
}

#[test]
fn an_absent_preference_falls_back_to_the_configuration_then_default() {
    let s: WidgetStyle<Colour> = current_from_sources(None, Some(7), None);
    assert_eq!(s.token(), IconAppearanceToken::TintedLight);
    let s: WidgetStyle<Colour> = current_from_sources(None, Some(42), None);
    assert_eq!(s.token(), IconAppearanceToken::RegularAutomatic);
    let s: WidgetStyle<Colour> = current_from_sources(None, None, None);
    assert_eq!(s.token(), IconAppearanceToken::RegularLight);
    assert_eq!(s.to_string(), "Default");
}

#[test]
fn the_live_colour_reaches_only_a_tinted_selection() {
    let c = colour(0.0, 0.0, 1.0, 1.0);
    let s = current_from_sources(Some("TintedDark"), None, Some(c));
    assert_eq!(s.tint(), Some(&c));
    let s = current_from_sources(Some("ClearDark"), None, Some(c));
    assert_eq!(s.tint(), None);
}

#[test]
fn the_unknown_token_message_wraps_the_quoted_string() {
    use_message();
}

fn use_message() {
    assert_eq!(
        macos_liquid_glass::icon_style::token::unknown_token_message_quoting("\"x\""),
        "unknown icon appearance token \"x\""
    );
}
