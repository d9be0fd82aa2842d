//! Light/dark resolution of an appearance.
//!
//! An effective appearance can be a vibrant or accessibility variant whose
//! name is neither Aqua nor DarkAqua, so an appearance is never compared by
//! name. It is first asked for its best match between the two stock
//! appearances, and only that answer is inspected.

use vstd::prelude::*;

verus! {

/// One of the two stock appearances that light/dark resolution matches
/// against.
#[derive(Debug, Clone, Copy, PartialEq, Eq, Structural)]
pub enum StockAppearance {
    /// `NSAppearanceNameAqua`, the light appearance.
    Aqua,
    /// `NSAppearanceNameDarkAqua`, the dark appearance.
    DarkAqua,
}

/// Whether an appearance whose best match among the stock appearances is
/// `best_match` resolves to Dark.
pub open spec fn resolves_dark(best_match: Option<StockAppearance>) -> bool {
    best_match == Some(StockAppearance::DarkAqua)
}

/// Whether an appearance resolves to Dark, given its best match between
/// Aqua and DarkAqua (`None` when it matches neither).
pub fn is_dark(best_match: Option<StockAppearance>) -> (dark: bool)
    ensures
        dark == resolves_dark(best_match),
{
    match best_match {
        Some(StockAppearance::DarkAqua) => true,
        _ => false,
    }
}

} // verus!
