use macos_liquid_glass::appearance::StockAppearance;
use macos_liquid_glass::is_dark;

#[test]
fn the_two_stock_appearances_resolve_to_themselves() {
    for (name, want) in [(StockAppearance::Aqua, false), (StockAppearance::DarkAqua, true)] {
        assert_eq!(is_dark(Some(name)), want, "{name:?}");
    }
}

#[test]
fn an_appearance_matching_neither_resolves_light() {
    assert!(!is_dark(None));
}
