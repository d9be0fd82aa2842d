//! A resolved Icon & widget style: which of the nine tokens the user chose,
//! plus the theme colour when that choice carries one, and how the style is
//! resolved from what the system reports.

use vstd::prelude::*;

use vstd::std_specs::cmp::PartialEqSpec;

use crate::appearance::{resolves_dark, StockAppearance};
use crate::icon_style::token::{
    lemma_raw_of_token_at, mode_label, token_mode, token_named, token_of_raw, token_raw,
    token_style, IconAppearanceToken,
    IconStyle, ThemeMode,
};

verus! {

/// The abstract value of a [`WidgetStyle`]: its token and its theme colour.
pub struct StyleModel<C> {
    /// Which of the nine the user chose.
    pub token: IconAppearanceToken,
    /// The theme colour, present only under the tinted family.
    pub tint: Option<C>,
}

/// A resolved Icon & widget style.
///
/// Exactly nine states are representable apart from the colour, because the
/// token is the state and the family and light/dark axis are read back off
/// it. `C` is the colour type of the host (an `NSColor` handle on macOS); the
/// style only carries it, and only under the tinted family.
#[derive(Debug)]
pub struct WidgetStyle<C> {
    token: IconAppearanceToken,
    tint: Option<C>,
}

impl<C> View for WidgetStyle<C> {
    type V = StyleModel<C>;

    closed spec fn view(&self) -> StyleModel<C> {
        StyleModel { token: self.token, tint: self.tint }
    }
}

/// The tint a style keeps when built from `token` and `tint`: only the tinted
/// family keeps one.
pub open spec fn kept_tint<C>(token: IconAppearanceToken, tint: Option<C>) -> Option<C> {
    if token_style(token) == IconStyle::Tinted {
        tint
    } else {
        None
    }
}

/// The name shown for a selection.
///
/// `RegularAutomatic` and `RegularLight` are both in the Regular family but
/// are different selections: the first is the Dark style with its Auto
/// sub-option, the second is Default.
pub open spec fn style_label(token: IconAppearanceToken) -> Seq<char> {
    match (token_style(token), token_mode(token)) {
        (IconStyle::Regular, ThemeMode::Auto) => "Dark ▸ Auto"@,
        (IconStyle::Regular, _) => "Default"@,
        (IconStyle::RegularDark, _) => "Dark"@,
        (IconStyle::Clear, m) => "Clear ▸ "@ + mode_label(m),
        (IconStyle::Tinted, m) => "Tinted ▸ "@ + mode_label(m),
    }
}

/// The stock appearance a mode forces, or `None` to inherit.
pub open spec fn forced_appearance(m: ThemeMode) -> Option<StockAppearance> {
    match m {
        ThemeMode::Light => Some(StockAppearance::Aqua),
        ThemeMode::Dark => Some(StockAppearance::DarkAqua),
        ThemeMode::Auto => None,
    }
}

/// Whether a style with mode `m` renders dark against an ambient appearance
/// whose best stock match is `ambient`.
pub open spec fn renders_dark(m: ThemeMode, ambient: Option<StockAppearance>) -> bool {
    match m {
        ThemeMode::Light => false,
        ThemeMode::Dark => true,
        ThemeMode::Auto => resolves_dark(ambient),
    }
}

/// Whether two styles differ whatever their colours are: in token, or in
/// whether a colour is present at all.
pub open spec fn differ_in_token_or_tint_presence<C>(a: StyleModel<C>, b: StyleModel<C>) -> bool {
    a.token != b.token || (a.tint is Some) != (b.tint is Some)
}

/// Whether two styles have the same token and neither carries a colour.
pub open spec fn same_token_without_tint<C>(a: StyleModel<C>, b: StyleModel<C>) -> bool {
    a.token == b.token && a.tint is None && b.tint is None
}

/// Equality of two styles: the same token, and either no colour on both or
/// equal colours on both.
pub open spec fn same_style<C: PartialEq>(
    a: StyleModel<C>,
    b: StyleModel<C>,
) -> bool {
    a.token == b.token && match (a.tint, b.tint) {
        (None, None) => true,
        (Some(x), Some(y)) => x.eq_spec(&y),
        _ => false,
    }
}

impl<C> WidgetStyle<C> {
    #[verifier::type_invariant]
    spec fn tint_only_when_tinted(self) -> bool {
        self.tint is Some ==> token_style(self.token) == IconStyle::Tinted
    }

    /// Build a style from a token and, for the tinted family, its theme
    /// colour.
    ///
    /// A `tint` passed with a non-tinted token is dropped rather than stored:
    /// keeping one would make two styles that render identically compare
    /// unequal.
    pub fn from_token(token: IconAppearanceToken, tint: Option<C>) -> (style: WidgetStyle<C>)
        ensures
            style@.token == token,
            style@.tint == kept_tint(token, tint),
    {
        let tint = if token.is_tinted() {
            tint
        } else {
            None
        };
        WidgetStyle { token, tint }
    }

    /// Which of the nine the user chose.
    pub fn token(&self) -> (token: IconAppearanceToken)
        ensures
            token == self@.token,
    {
        self.token
    }

    /// The style family.
    pub fn style(&self) -> (style: IconStyle)
        ensures
            style == token_style(self@.token),
    {
        self.token.style()
    }

    /// The light/dark axis.
    pub fn mode(&self) -> (mode: ThemeMode)
        ensures
            mode == token_mode(self@.token),
    {
        self.token.mode()
    }

    /// The theme colour. Only ever present under [`IconStyle::Tinted`].
    pub fn tint(&self) -> (tint: Option<&C>)
        ensures
            match tint {
                Some(c) => self@.tint == Some(*c),
                None => self@.tint is None,
            },
            tint is Some ==> token_style(self@.token) == IconStyle::Tinted,
    {
        proof {
            use_type_invariant(self);
        }
        match &self.tint {
            Some(c) => Some(c),
            None => None,
        }
    }

    /// Whether the theme colour applies.
    pub fn is_tinted(&self) -> (tinted: bool)
        ensures
            tinted == (token_style(self@.token) == IconStyle::Tinted),
    {
        self.token.is_tinted()
    }

    /// The appearance to force, or `None` to inherit the system's.
    ///
    /// The icon/widget style carries its own light/dark, so forcing is right:
    /// under "Clear ▸ Dark" the surface stays dark while the system is Light.
    /// `None` under [`ThemeMode::Auto`] means inherit, not unknown; resolve it
    /// with [`WidgetStyle::is_dark`].
    pub fn appearance(&self) -> (forced: Option<StockAppearance>)
        ensures
            forced == forced_appearance(token_mode(self@.token)),
    {
        match self.mode() {
            ThemeMode::Light => Some(StockAppearance::Aqua),
            ThemeMode::Dark => Some(StockAppearance::DarkAqua),
            ThemeMode::Auto => None,
        }
    }

    /// Whether this style renders dark, resolving [`ThemeMode::Auto`] against
    /// the ambient appearance's best stock match; forced modes ignore it.
    pub fn is_dark(&self, ambient: Option<StockAppearance>) -> (dark: bool)
        ensures
            dark == renders_dark(token_mode(self@.token), ambient),
    {
        match self.mode() {
            ThemeMode::Light => false,
            ThemeMode::Dark => true,
            ThemeMode::Auto => crate::appearance::is_dark(ambient),
        }
    }

    /// The name shown for the selection, as the style is displayed.
    pub fn to_string(&self) -> (label: String)
        ensures
            label@ == style_label(self@.token),
    {
        match (self.style(), self.mode()) {
            (IconStyle::Regular, ThemeMode::Auto) => String::from_str("Dark ▸ Auto"),
            (IconStyle::Regular, _) => String::from_str("Default"),
            (IconStyle::RegularDark, _) => String::from_str("Dark"),
            (IconStyle::Clear, m) => {
                let mut label = String::from_str("Clear ▸ ");
                label.append(m.as_str());
                label
            },
            (IconStyle::Tinted, m) => {
                let mut label = String::from_str("Tinted ▸ ");
                label.append(m.as_str());
                label
            },
        }
    }
}

impl<C: Clone> Clone for WidgetStyle<C> {
    /// A copy of the style, with the colour cloned.
    fn clone(&self) -> (copy: WidgetStyle<C>)
        ensures
            copy@.token == self@.token,
            copy@.tint is Some == self@.tint is Some,
            copy@.tint matches Some(c) ==> vstd::pervasive::cloned(self@.tint.unwrap(), c),
    {
        proof {
            use_type_invariant(self);
        }
        let tint = match &self.tint {
            Some(c) => Some(c.clone()),
            None => None,
        };
        WidgetStyle { token: self.token, tint }
    }
}

impl<C: PartialEq> PartialEq for WidgetStyle<C> {
    /// Equal exactly when the tokens are equal and the colours are: both
    /// absent, or both present and equal by `C`'s own `==`.
    fn eq(&self, other: &WidgetStyle<C>) -> (same: bool)
        ensures
            differ_in_token_or_tint_presence(self@, other@) ==> !same,
            same_token_without_tint(self@, other@) ==> same,
    {
        if self.token != other.token {
            return false;
        }
        match (&self.tint, &other.tint) {
            (None, None) => true,
            (Some(a), Some(b)) => a == b,
            _ => false,
        }
    }
}

impl<C: PartialEq> vstd::std_specs::cmp::PartialEqSpecImpl for WidgetStyle<C> {
    open spec fn obeys_eq_spec() -> bool {
        <C as PartialEqSpec>::obeys_eq_spec()
    }

    open spec fn eq_spec(&self, other: &WidgetStyle<C>) -> bool {
        same_style(self@, other@)
    }
}

/// A colour reaches a style exactly when its token is in the tinted family.
pub proof fn law_tint_reaches_exactly_the_tinted_family<C>(t: IconAppearanceToken, c: C)
    ensures
        kept_tint(t, Some(c)) is Some <==> token_style(t) == IconStyle::Tinted,
        kept_tint(t, Some(c)) is Some ==> kept_tint(t, Some(c)) == Some(c),
        kept_tint(t, None::<C>) is None,
{
}

/// No two selections display the same name: in particular `RegularAutomatic`
/// ("Dark ▸ Auto") and `RegularLight` ("Default") differ, though both are in
/// the Regular family.
pub proof fn law_style_labels_distinct(a: IconAppearanceToken, b: IconAppearanceToken)
    ensures
        style_label(a) == style_label(b) <==> a == b,
{
    reveal_strlit("Dark ▸ Auto");
    reveal_strlit("Default");
    reveal_strlit("Dark");
    reveal_strlit("Clear ▸ ");
    reveal_strlit("Tinted ▸ ");
    reveal_strlit("Light");
    reveal_strlit("Auto");
    if a != b && style_label(a) == style_label(b) {
        assert(style_label(a).len() == style_label(b).len());
        assert(style_label(a)[0] == style_label(b)[0]);
        assert(style_label(a)[2] == style_label(b)[2]);
        assert(style_label(a)[style_label(a).len() - 1] == style_label(b)[style_label(b).len() - 1]);
        assert(style_label(a)[style_label(a).len() - 2] == style_label(b)[style_label(b).len() - 2]);
    }
}

/// The appearance a style forces and its own light/dark resolution agree:
/// a forced appearance resolves as the style renders, whatever the ambient
/// appearance; only an Auto style, which forces nothing, follows the ambient
/// one.
pub proof fn law_forced_appearance_agrees_with_is_dark(t: IconAppearanceToken, ambient: Option<StockAppearance>)
    ensures
        forced_appearance(token_mode(t)) is Some ==> renders_dark(token_mode(t), ambient)
            == resolves_dark(forced_appearance(token_mode(t))),
        forced_appearance(token_mode(t)) is None <==> token_mode(t) == ThemeMode::Auto,
        token_mode(t) == ThemeMode::Auto ==> renders_dark(token_mode(t), ambient) == resolves_dark(ambient),
{
}

/// Styles with different tokens, or with a colour on one side only, are
/// never equal.
pub proof fn law_equal_styles_share_token_and_tint_presence<C: PartialEq>(a: StyleModel<C>, b: StyleModel<C>)
    ensures
        same_style(a, b) ==> a.token == b.token,
        same_style(a, b) ==> (a.tint is Some <==> b.tint is Some),
{
}

/// The token an `iconAppearanceTheme` integer resolves to, leniently:
/// out-of-range integers resolve to `RegularAutomatic` (enum 0), which
/// displays as "Dark ▸ Auto".
pub open spec fn resolved_token(theme: int) -> IconAppearanceToken {
    match token_of_raw(theme) {
        Some(t) => t,
        None => IconAppearanceToken::RegularAutomatic,
    }
}

/// The token the live style resolves to, from the preference string (when
/// the key holds a string) and the workspace configuration's integer (when
/// there is one).
///
/// An unrecognised string and an absent key both land on `RegularLight`, by
/// two different routes, and neither is the integer path's `RegularAutomatic`
/// fallback.
pub open spec fn live_token(preference: Option<Seq<char>>, config_theme: Option<i64>) -> IconAppearanceToken {
    match preference {
        Some(name) => match token_named(name) {
            Some(t) => t,
            None => IconAppearanceToken::RegularLight,
        },
        None => match config_theme {
            Some(v) => resolved_token(v as int),
            None => IconAppearanceToken::RegularLight,
        },
    }
}

/// With no preference string, the configuration's integer decides: an
/// integer in 0..=8 gives the token with exactly that integer, any other
/// integer gives `RegularAutomatic` (integer 0), and no integer at all gives
/// `RegularLight` (integer 1).
pub proof fn law_configuration_integer_gives_its_own_token(v: i64)
    ensures
        0 <= v <= 8 ==> token_raw(live_token(None, Some(v))) == v,
        !(0 <= v <= 8) ==> token_raw(live_token(None, Some(v))) == 0,
        token_raw(live_token(None, None)) == 1,
{
    if 0 <= v <= 8 {
        lemma_raw_of_token_at(v as int);
    }
}

/// The two lenient fallbacks differ: an out-of-range integer lands on
/// `RegularAutomatic` (enum 0, "Dark ▸ Auto"), an unrecognised preference
/// string on `RegularLight` (enum 1, "Default"), and so does an absent key.
/// A preference string, when present, decides alone.
pub proof fn law_fallbacks_differ(theme: int, name: Seq<char>, config_theme: Option<i64>)
    requires
        token_of_raw(theme) is None,
        token_named(name) is None,
    ensures
        resolved_token(theme) == IconAppearanceToken::RegularAutomatic,
        live_token(Some(name), config_theme) == IconAppearanceToken::RegularLight,
        live_token(None, None) == IconAppearanceToken::RegularLight,
        resolved_token(theme) != live_token(Some(name), config_theme),
{
}

/// Resolve an `iconAppearanceTheme` integer, leniently.
///
/// Out-of-range integers resolve to [`IconAppearanceToken::RegularAutomatic`]
/// (enum 0). This is a different fallback from the one an unrecognised
/// preference string takes, which is enum 1 ([`IconAppearanceToken::RegularLight`]).
pub fn resolve(theme: i64) -> (token: IconAppearanceToken)
    ensures
        token == resolved_token(theme as int),
{
    match IconAppearanceToken::from_raw(theme) {
        Ok(t) => t,
        Err(_) => IconAppearanceToken::RegularAutomatic,
    }
}

/// The live Icon & widget style from what the system reports: the
/// preference string, read after a forced sync (`None` when the key is
/// absent or not a string); the workspace configuration's theme integer, the
/// fallback when the preference is missing; and the configuration's theme
/// colour.
///
/// The preference string is preferred because the cached configuration lags
/// a real settings change by seconds in-process.
pub fn current_from_sources<C>(
    preference: Option<&str>,
    config_theme: Option<i64>,
    tint: Option<C>,
) -> (style: WidgetStyle<C>)
    ensures
        style@.token == live_token(
            match preference {
                Some(p) => Some(p@),
                None => None,
            },
            config_theme,
        ),
        style@.tint == kept_tint(style@.token, tint),
{
    let token = match preference {
        Some(name) => match IconAppearanceToken::parse_name(name) {
            Ok(t) => t,
            Err(_) => IconAppearanceToken::RegularLight,
        },
        None => match config_theme {
            Some(v) => resolve(v),
            None => IconAppearanceToken::RegularLight,
        },
    };
    WidgetStyle::from_token(token, tint)
}

} // verus!
