use macos_liquid_glass::icon_style::{
    enqueue_on_change, IconAppearanceToken, Interval, ObserverState, Reconcile, WidgetStyle,
    ICON_APPEARANCE_KEY, WATCHED_KEYS,
};

type Colour = (f64, f64, f64, f64);

fn style(token: IconAppearanceToken) -> WidgetStyle<Colour> {
    WidgetStyle::from_token(token, None)
}

#[test]
fn the_watched_keys_are_the_three_global_domain_keys() {
    assert_eq!(
        WATCHED_KEYS,
        &["AppleIconAppearanceTheme", "AppleAccentColor", "AppleInterfaceStyle"]
    );
    assert_eq!(ICON_APPEARANCE_KEY, "AppleIconAppearanceTheme");
}

#[test]
fn only_a_watched_key_enqueues_a_deferred_pass() {
    for key in WATCHED_KEYS {
        assert!(enqueue_on_change(Some(key)), "{key}");
    }
    assert!(!enqueue_on_change(Some("AppleIconAppearanceTintColor")));
    assert!(!enqueue_on_change(Some("")));
    assert!(!enqueue_on_change(None));
}

#[test]
fn the_timer_interval_is_clamped_to_fifty_milliseconds() {
    assert_eq!(Reconcile::KvoOnly.timer_interval(), None);
    assert_eq!(
        Reconcile::Every(Interval::from_millis(0)).timer_interval(),
        Some(Interval::from_millis(50))
    );
    assert_eq!(
        Reconcile::Every(Interval::from_millis(49)).timer_interval(),
        Some(Interval::from_millis(50))
    );
    assert_eq!(
        Reconcile::Every(Interval::from_millis(750)).timer_interval(),
        Some(Interval::from_millis(750))
    );
    assert_eq!(
        Reconcile::Every(Interval::new(0, 50_000_001)).timer_interval(),
        Some(Interval::new(0, 50_000_001))
    );
}

#[test]
fn a_new_observer_holds_the_initial_style_and_its_timer() {
    let state = ObserverState::new(Reconcile::default(), style(IconAppearanceToken::ClearDark));
    assert!(state.is_alive());
    assert!(state.pass_should_run());
    assert_eq!(state.timer(), Some(Interval::from_millis(750)));
    assert_eq!(state.applied().token(), IconAppearanceToken::ClearDark);
    assert_eq!(state.current().token(), IconAppearanceToken::ClearDark);

    let kvo = ObserverState::new(Reconcile::KvoOnly, style(IconAppearanceToken::RegularLight));
    assert_eq!(kvo.timer(), None);
}

#[test]
fn a_tick_that_reads_the_applied_style_is_silent() {
    let mut state = ObserverState::new(Reconcile::default(), style(IconAppearanceToken::ClearDark));
    assert!(!state.reconcile(style(IconAppearanceToken::ClearDark), false));
    assert_eq!(state.applied().token(), IconAppearanceToken::ClearDark);
}

#[test]
fn a_tick_that_reads_a_change_delivers_and_records_it() {
    let mut state = ObserverState::new(Reconcile::default(), style(IconAppearanceToken::ClearDark));
    assert!(state.reconcile(style(IconAppearanceToken::ClearLight), false));
    assert_eq!(state.applied().token(), IconAppearanceToken::ClearLight);
    assert!(!state.reconcile(style(IconAppearanceToken::ClearLight), false));
}

#[test]
fn a_colour_change_alone_is_a_change() {
    let red = WidgetStyle::from_token(IconAppearanceToken::TintedDark, Some((1.0, 0.0, 0.0, 1.0)));
    let blue = WidgetStyle::from_token(IconAppearanceToken::TintedDark, Some((0.0, 0.0, 1.0, 1.0)));
    let mut state = ObserverState::new(Reconcile::default(), red);
    assert!(state.reconcile(blue, false));
    assert_eq!(state.applied().tint(), Some(&(0.0, 0.0, 1.0, 1.0)));
}

#[test]
fn the_kvo_path_always_delivers() {
    let mut state = ObserverState::new(Reconcile::KvoOnly, style(IconAppearanceToken::TintedAutomatic));
    assert!(state.reconcile(style(IconAppearanceToken::TintedAutomatic), true));
    assert_eq!(state.applied().token(), IconAppearanceToken::TintedAutomatic);
}

#[test]
fn a_dropped_observer_runs_no_pass() {
    let mut state = ObserverState::new(Reconcile::default(), style(IconAppearanceToken::RegularDark));
    assert_eq!(state.shut_down(), Some(Interval::from_millis(750)));
    assert!(!state.is_alive());
    assert!(!state.pass_should_run());
    assert_eq!(state.timer(), None);
    assert_eq!(state.shut_down(), None);
    assert!(!state.pass_should_run());
}

#[test]
fn current_reports_the_style_last_delivered() {
    let mut state = ObserverState::new(Reconcile::default(), style(IconAppearanceToken::RegularLight));
    assert_eq!(state.current().token(), IconAppearanceToken::RegularLight);
    assert!(state.reconcile(style(IconAppearanceToken::ClearDark), false));
    assert!(!state.reconcile(style(IconAppearanceToken::ClearDark), false));
    assert_eq!(state.current().token(), IconAppearanceToken::ClearDark);
    assert!(state.reconcile(style(IconAppearanceToken::RegularDark), true));
    state.shut_down();
    assert_eq!(state.current().token(), IconAppearanceToken::RegularDark);
    assert!(state.current().tint().is_none());
}
