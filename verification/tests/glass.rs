use macos_liquid_glass::glass::{check_supported, GlassError, GlassStyle};

#[test]
fn a_style_reads_back_from_its_integer() {
    for style in [GlassStyle::Regular, GlassStyle::Clear] {
        assert_eq!(GlassStyle::from_raw(style.raw()), Some(style));
    }
    assert_eq!(GlassStyle::Regular.raw(), 0);
    assert_eq!(GlassStyle::Clear.raw(), 1);
    assert_eq!(GlassStyle::from_raw(2), None);
    assert_eq!(GlassStyle::from_raw(-1), None);
}

#[test]
fn an_unsupported_system_is_reported_not_panicked_on() {
    assert_eq!(check_supported(true), Ok(()));
    assert_eq!(check_supported(false), Err(GlassError::Unsupported));
    assert_eq!(
        GlassError::Unsupported.to_string(),
        "NSGlassEffectView is not available on this system; Liquid Glass requires macOS 26 or later"
    );
}
