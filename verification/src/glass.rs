//! The Liquid Glass material: which style a surface uses, and why one could
//! not be created.
//!
//! `NSGlassEffectView` exists only on macOS 26 and later, so a surface is
//! guarded by a runtime class lookup rather than a version comparison.
//! Content goes inside the surface's content view, never as a sibling laid
//! over it: glass is never stacked on glass.

use vstd::prelude::*;

verus! {

/// Which material a surface uses.
#[derive(Debug, Clone, Copy, PartialEq, Eq, Hash, Structural)]
#[non_exhaustive]
pub enum GlassStyle {
    /// The standard frosted material.
    Regular,
    /// The thinner, more transparent material.
    Clear,
}

/// The `NSGlassEffectViewStyle` integer of a style.
pub open spec fn glass_style_raw(style: GlassStyle) -> int {
    match style {
        GlassStyle::Regular => 0,
        GlassStyle::Clear => 1,
    }
}

/// The style an `NSGlassEffectViewStyle` integer stands for, if this crate
/// knows it.
pub open spec fn glass_style_of_raw(raw: int) -> Option<GlassStyle> {
    if raw == 0 {
        Some(GlassStyle::Regular)
    } else if raw == 1 {
        Some(GlassStyle::Clear)
    } else {
        None
    }
}

/// Every style reads back as itself from the integer it sets, and no other
/// style shares that integer.
pub proof fn law_glass_style_round_trips(style: GlassStyle, other: GlassStyle)
    ensures
        glass_style_of_raw(glass_style_raw(style)) == Some(style),
        glass_style_raw(style) == glass_style_raw(other) ==> style == other,
{
}

impl GlassStyle {
    /// The `NSGlassEffectViewStyle` integer the view is set to.
    pub fn raw(self) -> (raw: isize)
        ensures
            raw == glass_style_raw(self),
    {
        match self {
            GlassStyle::Regular => 0,
            GlassStyle::Clear => 1,
        }
    }

    /// The style a view reports, read back from its integer.
    ///
    /// `None` for a style this crate does not know: the AppKit type is an
    /// open newtype over an integer, so a future material arrives as an
    /// integer with no variant.
    pub fn from_raw(raw: isize) -> (style: Option<GlassStyle>)
        ensures
            style == glass_style_of_raw(raw as int),
    {
        if raw == 0 {
            Some(GlassStyle::Regular)
        } else if raw == 1 {
            Some(GlassStyle::Clear)
        } else {
            None
        }
    }
}

/// Why a glass surface could not be created.
#[derive(Debug, Clone, Copy, PartialEq, Eq, Hash, Structural)]
#[non_exhaustive]
pub enum GlassError {
    /// `NSGlassEffectView` is not registered with the Objective-C runtime,
    /// which means this is not macOS 26 or later.
    Unsupported,
}

/// The message a glass error is displayed with.
pub open spec fn glass_error_message(e: GlassError) -> Seq<char> {
    match e {
        GlassError::Unsupported => "NSGlassEffectView is not available on this system; Liquid Glass requires macOS 26 or later"@,
    }
}

impl GlassError {
    /// The message this error is displayed with.
    pub fn to_string(&self) -> (message: String)
        ensures
            message@ == glass_error_message(*self),
    {
        match self {
            GlassError::Unsupported => String::from_str(
                "NSGlassEffectView is not available on this system; Liquid Glass requires macOS 26 or later",
            ),
        }
    }
}

/// Whether a surface may be created on a system where the material class is
/// `supported` (registered with the runtime): the error when it is not.
pub open spec fn creation_check(supported: bool) -> Result<(), GlassError> {
    if supported {
        Ok(())
    } else {
        Err(GlassError::Unsupported)
    }
}

/// The availability test a surface's construction starts with: [`GlassError::Unsupported`]
/// rather than a panic when the material class is absent.
pub fn check_supported(supported: bool) -> (checked: Result<(), GlassError>)
    ensures
        checked == creation_check(supported),
{
    if supported {
        Ok(())
    } else {
        Err(GlassError::Unsupported)
    }
}

} // verus!
