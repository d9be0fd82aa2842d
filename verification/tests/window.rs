use macos_liquid_glass::window::{
    shadow_changes, Chrome, WindowState, WindowStyleMask, STYLE_CLOSABLE,
    STYLE_FULL_SIZE_CONTENT_VIEW, STYLE_MINIATURIZABLE, STYLE_RESIZABLE, STYLE_TITLED,
};

#[test]
fn borderless_mask_is_resizable_alone() {
    assert_eq!(
        Chrome::Borderless.style_mask(),
        WindowStyleMask(STYLE_RESIZABLE)
    );
}

#[test]
fn titled_mask_carries_the_bits_the_behaviours_need() {
    let m = Chrome::Titled.style_mask();
    for (bit, why) in [
        (
            WindowStyleMask(STYLE_TITLED),
            "the theme frame every behaviour lives in",
        ),
        (
            WindowStyleMask(STYLE_FULL_SIZE_CONTENT_VIEW),
            "content under the titlebar",
        ),
        (WindowStyleMask(STYLE_CLOSABLE), "the close button"),
        (
            WindowStyleMask(STYLE_MINIATURIZABLE),
            "minimise, which borderless cannot do",
        ),
        (WindowStyleMask(STYLE_RESIZABLE), "zoom and edge resize"),
    ] {
        assert!(m.contains(bit), "titled mask must contain {bit:?}: {why}");
    }
}

#[test]
fn titled_is_the_default_chrome() {
    assert_eq!(Chrome::default(), Chrome::Titled);
}

#[test]
fn the_style_mask_values_are_appkits() {
    assert_eq!(Chrome::Titled.style_mask(), WindowStyleMask(1 | 2 | 4 | 8 | (1 << 15)));
    assert!(!Chrome::Borderless.style_mask().contains(WindowStyleMask(STYLE_TITLED)));
    assert_eq!(
        WindowStyleMask(1).union(WindowStyleMask(8)),
        WindowStyleMask(9)
    );
}

#[test]
fn each_shape_is_configured_for_its_chrome() {
    let b = Chrome::Borderless.setup();
    assert!(b.movable_by_background);
    assert!(!b.titlebar_transparent);
    assert!(!b.title_hidden);
    let t = Chrome::Titled.setup();
    assert!(!t.movable_by_background);
    assert!(t.titlebar_transparent);
    assert!(t.title_hidden);
    for s in [b, t] {
        assert!(!s.opaque);
        assert!(!s.tabbing_allowed);
        assert!(!s.restorable);
        assert!(!s.released_when_closed);
    }
    assert!(Chrome::Borderless.is_borderless());
    assert!(!Chrome::Titled.is_borderless());
}

#[test]
fn escape_closes_only_when_enabled_and_not_vetoed() {
    let mut state = WindowState::new();
    assert!(!state.escape_consults_delegate());
    assert!(!state.escape_closes(None));
    assert!(!state.escape_closes(Some(true)));
    state.close_on_escape = true;
    assert!(state.escape_consults_delegate());
    assert!(state.escape_closes(None));
    assert!(state.escape_closes(Some(true)));
    assert!(!state.escape_closes(Some(false)), "a veto is honoured");
}

#[test]
fn only_a_real_shadow_change_touches_the_window() {
    assert!(!shadow_changes(true, true));
    assert!(!shadow_changes(false, false));
    assert!(shadow_changes(false, true));
    assert!(shadow_changes(true, false));
}
