//! The nine values of `AppleIconAppearanceTheme` and the two axes read off
//! them.
//!
//! The four-option Settings pane writes nine distinct tokens, because the
//! style family and the light/dark axis are encoded together in one string.
//! Choosing "Default" removes the key instead of writing a value, so an
//! absent key is a meaningful state.

use vstd::prelude::*;

use crate::text::{debug_quoted, push_signed_decimal, quote_debug, signed_decimal, str_eq};

verus! {

/// The preference key the Appearance pane writes.
pub const ICON_APPEARANCE_KEY: &'static str = "AppleIconAppearanceTheme";

/// How a style renders, which is coarser than which button the user pressed.
///
/// A lossy grouping: Default and Clear render identically for a desktop
/// widget, as do Dark and Clear ▸ Dark, so the family only separates untinted
/// from tinted. The light/dark half is on [`ThemeMode`].
#[derive(Debug, Clone, Copy, PartialEq, Eq, Hash, Structural)]
#[non_exhaustive]
pub enum IconStyle {
    /// "Default".
    Regular,
    /// "Dark".
    RegularDark,
    /// "Clear".
    Clear,
    /// "Tinted", the only family that carries a theme colour.
    Tinted,
}

/// The light/dark axis, which is independent of the family.
#[derive(Debug, Clone, Copy, PartialEq, Eq, Hash, Structural)]
#[non_exhaustive]
pub enum ThemeMode {
    /// Force light.
    Light,
    /// Force dark.
    Dark,
    /// Follow the system appearance, and keep following it as it changes.
    Auto,
}

/// The word a mode is shown as.
pub open spec fn mode_label(m: ThemeMode) -> Seq<char> {
    match m {
        ThemeMode::Light => "Light"@,
        ThemeMode::Dark => "Dark"@,
        ThemeMode::Auto => "Auto"@,
    }
}

impl ThemeMode {
    /// The word this mode is shown as.
    pub fn as_str(self) -> (label: &'static str)
        ensures
            label@ == mode_label(self),
    {
        match self {
            ThemeMode::Light => "Light",
            ThemeMode::Dark => "Dark",
            ThemeMode::Auto => "Auto",
        }
    }
}

/// One of the nine values `AppleIconAppearanceTheme` can hold.
///
/// `RegularLight` is inferred rather than observed: choosing Default removes
/// the key instead of writing that string. `"Dark"` is not a token; the Dark
/// selection writes `RegularDark`.
#[derive(Debug, Clone, Copy, PartialEq, Eq, Hash, PartialOrd, Ord, Structural)]
#[non_exhaustive]
pub enum IconAppearanceToken {
    /// `"RegularAutomatic"`, 0: the Dark style with its Auto sub-option, not
    /// Default.
    RegularAutomatic,
    /// `"RegularLight"`, 1: Default. The key is absent in this state.
    RegularLight,
    /// `"RegularDark"`, 2.
    RegularDark,
    /// `"ClearAutomatic"`, 3.
    ClearAutomatic,
    /// `"ClearLight"`, 4.
    ClearLight,
    /// `"ClearDark"`, 5.
    ClearDark,
    /// `"TintedAutomatic"`, 6.
    TintedAutomatic,
    /// `"TintedLight"`, 7.
    TintedLight,
    /// `"TintedDark"`, 8.
    TintedDark,
}

/// The exact string the Appearance pane writes for a token.
pub open spec fn token_name(t: IconAppearanceToken) -> Seq<char> {
    match t {
        IconAppearanceToken::RegularAutomatic => "RegularAutomatic"@,
        IconAppearanceToken::RegularLight => "RegularLight"@,
        IconAppearanceToken::RegularDark => "RegularDark"@,
        IconAppearanceToken::ClearAutomatic => "ClearAutomatic"@,
        IconAppearanceToken::ClearLight => "ClearLight"@,
        IconAppearanceToken::ClearDark => "ClearDark"@,
        IconAppearanceToken::TintedAutomatic => "TintedAutomatic"@,
        IconAppearanceToken::TintedLight => "TintedLight"@,
        IconAppearanceToken::TintedDark => "TintedDark"@,
    }
}

/// The `iconAppearanceTheme` integer of a token: its position in preference
/// order.
pub open spec fn token_raw(t: IconAppearanceToken) -> int {
    match t {
        IconAppearanceToken::RegularAutomatic => 0,
        IconAppearanceToken::RegularLight => 1,
        IconAppearanceToken::RegularDark => 2,
        IconAppearanceToken::ClearAutomatic => 3,
        IconAppearanceToken::ClearLight => 4,
        IconAppearanceToken::ClearDark => 5,
        IconAppearanceToken::TintedAutomatic => 6,
        IconAppearanceToken::TintedLight => 7,
        IconAppearanceToken::TintedDark => 8,
    }
}

/// The style family a token selects.
pub open spec fn token_style(t: IconAppearanceToken) -> IconStyle {
    match t {
        IconAppearanceToken::RegularAutomatic | IconAppearanceToken::RegularLight => IconStyle::Regular,
        IconAppearanceToken::RegularDark => IconStyle::RegularDark,
        IconAppearanceToken::ClearAutomatic
        | IconAppearanceToken::ClearLight
        | IconAppearanceToken::ClearDark => IconStyle::Clear,
        IconAppearanceToken::TintedAutomatic
        | IconAppearanceToken::TintedLight
        | IconAppearanceToken::TintedDark => IconStyle::Tinted,
    }
}

/// The light/dark axis a token selects.
pub open spec fn token_mode(t: IconAppearanceToken) -> ThemeMode {
    match t {
        IconAppearanceToken::RegularAutomatic
        | IconAppearanceToken::ClearAutomatic
        | IconAppearanceToken::TintedAutomatic => ThemeMode::Auto,
        IconAppearanceToken::RegularLight
        | IconAppearanceToken::ClearLight
        | IconAppearanceToken::TintedLight => ThemeMode::Light,
        IconAppearanceToken::RegularDark
        | IconAppearanceToken::ClearDark
        | IconAppearanceToken::TintedDark => ThemeMode::Dark,
    }
}

/// The token at a position in preference order.
pub open spec fn token_at(i: int) -> IconAppearanceToken
    recommends
        0 <= i < 9,
{
    if i == 0 {
        IconAppearanceToken::RegularAutomatic
    } else if i == 1 {
        IconAppearanceToken::RegularLight
    } else if i == 2 {
        IconAppearanceToken::RegularDark
    } else if i == 3 {
        IconAppearanceToken::ClearAutomatic
    } else if i == 4 {
        IconAppearanceToken::ClearLight
    } else if i == 5 {
        IconAppearanceToken::ClearDark
    } else if i == 6 {
        IconAppearanceToken::TintedAutomatic
    } else if i == 7 {
        IconAppearanceToken::TintedLight
    } else {
        IconAppearanceToken::TintedDark
    }
}

/// Whether some token is written as `s`.
pub open spec fn is_token_name(s: Seq<char>) -> bool {
    exists|t: IconAppearanceToken| token_name(t) == s
}

/// Whether some token has the integer `v`.
pub open spec fn is_token_raw(v: int) -> bool {
    0 <= v < 9
}

impl IconAppearanceToken {
    /// Every token, in preference-value order.
    pub const ALL: &'static [IconAppearanceToken; 9] = &[
        IconAppearanceToken::RegularAutomatic,
        IconAppearanceToken::RegularLight,
        IconAppearanceToken::RegularDark,
        IconAppearanceToken::ClearAutomatic,
        IconAppearanceToken::ClearLight,
        IconAppearanceToken::ClearDark,
        IconAppearanceToken::TintedAutomatic,
        IconAppearanceToken::TintedLight,
        IconAppearanceToken::TintedDark,
    ];

    /// The exact string the Appearance pane writes.
    pub fn name(self) -> (name: &'static str)
        ensures
            name@ == token_name(self),
    {
        match self {
            IconAppearanceToken::RegularAutomatic => "RegularAutomatic",
            IconAppearanceToken::RegularLight => "RegularLight",
            IconAppearanceToken::RegularDark => "RegularDark",
            IconAppearanceToken::ClearAutomatic => "ClearAutomatic",
            IconAppearanceToken::ClearLight => "ClearLight",
            IconAppearanceToken::ClearDark => "ClearDark",
            IconAppearanceToken::TintedAutomatic => "TintedAutomatic",
            IconAppearanceToken::TintedLight => "TintedLight",
            IconAppearanceToken::TintedDark => "TintedDark",
        }
    }

    /// The `iconAppearanceTheme` integer for this token.
    pub fn raw(self) -> (raw: i64)
        ensures
            raw == token_raw(self),
    {
        match self {
            IconAppearanceToken::RegularAutomatic => 0,
            IconAppearanceToken::RegularLight => 1,
            IconAppearanceToken::RegularDark => 2,
            IconAppearanceToken::ClearAutomatic => 3,
            IconAppearanceToken::ClearLight => 4,
            IconAppearanceToken::ClearDark => 5,
            IconAppearanceToken::TintedAutomatic => 6,
            IconAppearanceToken::TintedLight => 7,
            IconAppearanceToken::TintedDark => 8,
        }
    }

    /// The style family this token selects.
    pub fn style(self) -> (style: IconStyle)
        ensures
            style == token_style(self),
    {
        match self {
            IconAppearanceToken::RegularAutomatic | IconAppearanceToken::RegularLight => {
                IconStyle::Regular
            },
            IconAppearanceToken::RegularDark => IconStyle::RegularDark,
            IconAppearanceToken::ClearAutomatic
            | IconAppearanceToken::ClearLight
            | IconAppearanceToken::ClearDark => IconStyle::Clear,
            IconAppearanceToken::TintedAutomatic
            | IconAppearanceToken::TintedLight
            | IconAppearanceToken::TintedDark => IconStyle::Tinted,
        }
    }

    /// The light/dark axis this token selects.
    pub fn mode(self) -> (mode: ThemeMode)
        ensures
            mode == token_mode(self),
    {
        match self {
            IconAppearanceToken::RegularAutomatic
            | IconAppearanceToken::ClearAutomatic
            | IconAppearanceToken::TintedAutomatic => ThemeMode::Auto,
            IconAppearanceToken::RegularLight
            | IconAppearanceToken::ClearLight
            | IconAppearanceToken::TintedLight => ThemeMode::Light,
            IconAppearanceToken::RegularDark
            | IconAppearanceToken::ClearDark
            | IconAppearanceToken::TintedDark => ThemeMode::Dark,
        }
    }

    /// Whether this token's family carries a theme colour.
    pub fn is_tinted(self) -> (tinted: bool)
        ensures
            tinted == (token_style(self) == IconStyle::Tinted),
    {
        self.style() == IconStyle::Tinted
    }
}

/// The token written as `s`, if any.
pub open spec fn token_named(s: Seq<char>) -> Option<IconAppearanceToken> {
    if is_token_name(s) {
        Some(choose|t: IconAppearanceToken| token_name(t) == s)
    } else {
        None
    }
}

/// The token whose integer is `v`, if any.
pub open spec fn token_of_raw(v: int) -> Option<IconAppearanceToken> {
    if is_token_raw(v) {
        Some(token_at(v))
    } else {
        None
    }
}

/// Every token sits at its own integer in preference order.
pub proof fn lemma_token_at_raw(t: IconAppearanceToken)
    ensures
        is_token_raw(token_raw(t)),
        token_at(token_raw(t)) == t,
{
}

/// The integer of the token at a position is that position.
pub proof fn lemma_raw_of_token_at(i: int)
    requires
        is_token_raw(i),
    ensures
        token_raw(token_at(i)) == i,
{
}

/// No two tokens are written the same way.
pub proof fn lemma_token_names_distinct(a: IconAppearanceToken, b: IconAppearanceToken)
    ensures
        token_name(a) == token_name(b) <==> a == b,
{
    reveal_strlit("RegularAutomatic");
    reveal_strlit("RegularLight");
    reveal_strlit("RegularDark");
    reveal_strlit("ClearAutomatic");
    reveal_strlit("ClearLight");
    reveal_strlit("ClearDark");
    reveal_strlit("TintedAutomatic");
    reveal_strlit("TintedLight");
    reveal_strlit("TintedDark");
    if a != b && token_name(a) == token_name(b) {
        assert(token_name(a).len() == token_name(b).len());
        assert(token_name(a)[0] == token_name(b)[0]);
        assert(token_name(a)[5] == token_name(b)[5]);
        assert(token_name(a)[7] == token_name(b)[7]);
    }
}

/// The token written as `s` is the one whose name is `s`.
pub proof fn lemma_token_named(s: Seq<char>, t: IconAppearanceToken)
    ensures
        token_named(s) == Some(t) <==> token_name(t) == s,
{
    if token_name(t) == s {
        let c = choose|u: IconAppearanceToken| token_name(u) == s;
        lemma_token_names_distinct(c, t);
    }
}

/// Every token reads back from its own name and from its own integer.
pub proof fn law_token_round_trips(t: IconAppearanceToken)
    ensures
        token_named(token_name(t)) == Some(t),
        token_of_raw(token_raw(t)) == Some(t),
{
    lemma_token_named(token_name(t), t);
}

/// [`IconAppearanceToken::ALL`] lists all nine tokens, each at its own
/// integer, which is the order both lookups search.
pub proof fn law_all_is_complete_and_in_preference_order(t: IconAppearanceToken, i: int)
    requires
        0 <= i < 9,
    ensures
        IconAppearanceToken::ALL@.len() == 9,
        token_raw(IconAppearanceToken::ALL@[i]) == i,
        IconAppearanceToken::ALL@[token_raw(t)] == t,
{
}

/// The family and the light/dark axis together determine the token: nine
/// tokens, nine distinct pairs.
pub proof fn law_axes_determine_token(a: IconAppearanceToken, b: IconAppearanceToken)
    ensures
        (token_style(a) == token_style(b) && token_mode(a) == token_mode(b)) <==> a == b,
{
}

/// Exactly the tokens 6, 7 and 8 belong to the tinted family.
pub proof fn law_tinted_family_is_six_to_eight(t: IconAppearanceToken)
    ensures
        token_style(t) == IconStyle::Tinted <==> 6 <= token_raw(t) <= 8,
{
}

/// The preference string was not one of the nine tokens.
///
/// Distinct from [`UnknownThemeValue`]: an unrecognised string and an
/// out-of-range integer are different failures with different fallbacks.
#[derive(Debug, Clone, PartialEq, Eq)]
pub struct UnknownToken(String);

impl View for UnknownToken {
    type V = Seq<char>;

    closed spec fn view(&self) -> Seq<char> {
        self.0@
    }
}

/// The message an unrecognised token string is reported with.
pub open spec fn unknown_token_message(found: Seq<char>) -> Seq<char> {
    "unknown icon appearance token "@ + debug_quoted(found)
}

impl UnknownToken {
    /// The string that was not recognised.
    pub fn found(&self) -> (found: &str)
        ensures
            found@ == self@,
    {
        self.0.as_str()
    }

    /// The message this error is displayed with.
    pub fn to_string(&self) -> (message: String)
        ensures
            message@ == unknown_token_message(self@),
    {
        let quoted = quote_debug(self.0.as_str());
        unknown_token_message_quoting(quoted.as_str())
    }
}

/// The message an unrecognised token string is reported with, given the
/// string already in its quoted form.
pub fn unknown_token_message_quoting(quoted: &str) -> (message: String)
    ensures
        message@ == "unknown icon appearance token "@ + quoted@,
{
    let mut message = String::from_str("unknown icon appearance token ");
    message.append(quoted);
    message
}

/// The `iconAppearanceTheme` integer was not one of 0..=8.
#[derive(Debug, Clone, Copy, PartialEq, Eq)]
pub struct UnknownThemeValue(i64);

impl View for UnknownThemeValue {
    type V = i64;

    closed spec fn view(&self) -> i64 {
        self.0
    }
}

/// The message an out-of-range theme integer is reported with.
pub open spec fn unknown_theme_value_message(found: i64) -> Seq<char> {
    "icon appearance theme "@ + signed_decimal(found as int) + " is out of range 0..=8"@
}

impl UnknownThemeValue {
    /// The integer that was out of range.
    pub fn found(&self) -> (found: i64)
        ensures
            found == self@,
    {
        self.0
    }

    /// The message this error is displayed with.
    pub fn to_string(&self) -> (message: String)
        ensures
            message@ == unknown_theme_value_message(self@),
    {
        let mut message = String::from_str("icon appearance theme ");
        push_signed_decimal(self.0, &mut message);
        message.append(" is out of range 0..=8");
        message
    }
}

/// The result of reading a token from its preference string.
pub open spec fn parse_spec(s: Seq<char>) -> Result<IconAppearanceToken, Seq<char>> {
    match token_named(s) {
        Some(t) => Ok(t),
        None => Err(s),
    }
}

impl IconAppearanceToken {
    /// The token written as `s`, searching [`IconAppearanceToken::ALL`] in
    /// order; [`UnknownToken`] carrying `s` when no token is written so.
    pub fn parse_name(s: &str) -> (parsed: Result<IconAppearanceToken, UnknownToken>)
        ensures
            match parsed {
                Ok(t) => token_named(s@) == Some(t),
                Err(e) => token_named(s@) is None && e@ == s@,
            },
    {
        let mut i: usize = 0;
        while i < 9
            invariant
                0 <= i <= 9,
                forall|j: int| 0 <= j < i ==> token_name(#[trigger] token_at(j)) != s@,
            decreases 9 - i,
        {
            let t = Self::ALL[i];
            assert(t == token_at(i as int));
            if str_eq(t.name(), s) {
                proof {
                    lemma_token_named(s@, t);
                }
                return Ok(t);
            }
            i = i + 1;
        }
        proof {
            if is_token_name(s@) {
                let t = choose|t: IconAppearanceToken| token_name(t) == s@;
                lemma_token_at_raw(t);
                assert(token_name(token_at(token_raw(t))) != s@);
            }
        }
        Err(UnknownToken(s.to_owned()))
    }

    /// The token whose `iconAppearanceTheme` integer is `value`, searching
    /// [`IconAppearanceToken::ALL`] in order; [`UnknownThemeValue`] carrying
    /// `value` when it is outside 0..=8.
    pub fn from_raw(value: i64) -> (resolved: Result<IconAppearanceToken, UnknownThemeValue>)
        ensures
            match resolved {
                Ok(t) => token_of_raw(value as int) == Some(t),
                Err(e) => token_of_raw(value as int) is None && e@ == value,
            },
    {
        let mut i: usize = 0;
        while i < 9
            invariant
                0 <= i <= 9,
                forall|j: int| 0 <= j < i ==> token_raw(#[trigger] token_at(j)) != value,
            decreases 9 - i,
        {
            let t = Self::ALL[i];
            assert(t == token_at(i as int));
            if t.raw() == value {
                return Ok(t);
            }
            i = i + 1;
        }
        proof {
            if is_token_raw(value as int) {
                lemma_raw_of_token_at(value as int);
                assert(token_raw(token_at(value as int)) != value);
            }
        }
        Err(UnknownThemeValue(value))
    }
}

impl core::str::FromStr for IconAppearanceToken {
    type Err = UnknownToken;

    fn from_str(s: &str) -> (parsed: Result<IconAppearanceToken, UnknownToken>)
        ensures
            match parsed {
                Ok(t) => token_named(s@) == Some(t),
                Err(e) => token_named(s@) is None && e@ == s@,
            },
    {
        IconAppearanceToken::parse_name(s)
    }
}

impl TryFrom<i64> for IconAppearanceToken {
    type Error = UnknownThemeValue;

    fn try_from(value: i64) -> (resolved: Result<IconAppearanceToken, UnknownThemeValue>)
        ensures
            match resolved {
                Ok(t) => token_of_raw(value as int) == Some(t),
                Err(e) => token_of_raw(value as int) is None && e@ == value,
            },
    {
        IconAppearanceToken::from_raw(value)
    }
}

impl vstd::std_specs::convert::TryFromSpecImpl<i64> for IconAppearanceToken {
    open spec fn obeys_try_from_spec() -> bool {
        true
    }

    closed spec fn try_from_spec(value: i64) -> Result<IconAppearanceToken, UnknownThemeValue> {
        match token_of_raw(value as int) {
            Some(t) => Ok(t),
            None => Err(UnknownThemeValue(value)),
        }
    }
}

} // verus!
