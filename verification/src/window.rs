//! The shape of a transparent window that hosts a glass surface, and the
//! decisions it makes on its own behalf.
//!
//! Two shapes exist and the difference is behavioural: a titled window with
//! a transparent titlebar, and a borderless one with no titlebar at all,
//! which gives up minimise, titlebar double-click and traffic lights because
//! those live in the theme frame it lacks.

use vstd::prelude::*;

verus! {

/// `NSWindowStyleMaskBorderless`, the constant 0.
pub const STYLE_BORDERLESS: u64 = 0;
/// `NSWindowStyleMaskTitled`.
pub const STYLE_TITLED: u64 = 1;
/// `NSWindowStyleMaskClosable`.
pub const STYLE_CLOSABLE: u64 = 2;
/// `NSWindowStyleMaskMiniaturizable`.
pub const STYLE_MINIATURIZABLE: u64 = 4;
/// `NSWindowStyleMaskResizable`.
pub const STYLE_RESIZABLE: u64 = 8;
/// `NSWindowStyleMaskFullSizeContentView`.
pub const STYLE_FULL_SIZE_CONTENT_VIEW: u64 = 32768;

/// A window style mask, as the bits AppKit reads.
#[derive(Debug, Clone, Copy, PartialEq, Eq, Hash, Structural)]
pub struct WindowStyleMask(pub u64);

impl WindowStyleMask {
    /// Whether every bit of `other` is set in this mask.
    pub fn contains(self, other: WindowStyleMask) -> (contained: bool)
        ensures
            contained == (self.0 & other.0 == other.0),
    {
        self.0 & other.0 == other.0
    }

    /// The mask with the bits of both.
    pub fn union(self, other: WindowStyleMask) -> (both: WindowStyleMask)
        ensures
            both.0 == self.0 | other.0,
    {
        WindowStyleMask(self.0 | other.0)
    }
}

/// Which window shape was built.
#[derive(Debug, Clone, Copy, PartialEq, Eq, Hash, Structural)]
pub enum Chrome {
    /// No titlebar at all: for a HUD, a desktop widget or a measurement
    /// target.
    Borderless,
    /// A normal titled window that happens to be made of glass.
    Titled,
}

impl Default for Chrome {
    /// [`Chrome::Titled`], the shape to use unless there is a specific reason
    /// not to.
    fn default() -> (chrome: Chrome)
        ensures
            chrome == Chrome::Titled,
    {
        Chrome::Titled
    }
}

/// The style-mask bits a chrome builds its window with.
///
/// `Borderless` is 0, so `Borderless | Resizable` is simply `Resizable`,
/// which is why adding `Miniaturizable` to it changes nothing useful without
/// `Titled`.
pub open spec fn chrome_bits(chrome: Chrome) -> u64 {
    match chrome {
        Chrome::Borderless => STYLE_BORDERLESS | STYLE_RESIZABLE,
        Chrome::Titled => STYLE_TITLED | STYLE_FULL_SIZE_CONTENT_VIEW | STYLE_CLOSABLE
            | STYLE_MINIATURIZABLE | STYLE_RESIZABLE,
    }
}

/// The borderless mask is `Resizable` alone, without the `Titled` bit every
/// theme-frame behaviour lives in, which is why adding `Miniaturizable` to it
/// buys nothing.
pub proof fn law_borderless_mask_is_resizable_alone()
    ensures
        chrome_bits(Chrome::Borderless) == STYLE_RESIZABLE,
        chrome_bits(Chrome::Borderless) & STYLE_TITLED == 0,
{
    assert(0u64 | 8u64 == 8u64) by (bit_vector);
    assert(8u64 & 1u64 == 0u64) by (bit_vector);
}

/// The titled mask carries every bit its behaviours need: the theme frame,
/// content under the titlebar, the close button, minimise, and resizing.
pub proof fn law_titled_mask_carries_its_bits()
    ensures
        chrome_bits(Chrome::Titled) & STYLE_TITLED == STYLE_TITLED,
        chrome_bits(Chrome::Titled) & STYLE_FULL_SIZE_CONTENT_VIEW == STYLE_FULL_SIZE_CONTENT_VIEW,
        chrome_bits(Chrome::Titled) & STYLE_CLOSABLE == STYLE_CLOSABLE,
        chrome_bits(Chrome::Titled) & STYLE_MINIATURIZABLE == STYLE_MINIATURIZABLE,
        chrome_bits(Chrome::Titled) & STYLE_RESIZABLE == STYLE_RESIZABLE,
{
    let m: u64 = 1u64 | 32768u64 | 2u64 | 4u64 | 8u64;
    assert(m & 1u64 == 1u64) by (bit_vector)
        requires
            m == 1u64 | 32768u64 | 2u64 | 4u64 | 8u64,
    ;
    assert(m & 32768u64 == 32768u64) by (bit_vector)
        requires
            m == 1u64 | 32768u64 | 2u64 | 4u64 | 8u64,
    ;
    assert(m & 2u64 == 2u64) by (bit_vector)
        requires
            m == 1u64 | 32768u64 | 2u64 | 4u64 | 8u64,
    ;
    assert(m & 4u64 == 4u64) by (bit_vector)
        requires
            m == 1u64 | 32768u64 | 2u64 | 4u64 | 8u64,
    ;
    assert(m & 8u64 == 8u64) by (bit_vector)
        requires
            m == 1u64 | 32768u64 | 2u64 | 4u64 | 8u64,
    ;
}

/// How a window of a given chrome is configured at construction, beyond its
/// style mask. The mask is fixed there and never changed afterwards:
/// assigning a style mask to a live window rebuilds its frame view and
/// discards an installed glass view.
#[derive(Debug, Clone, Copy, PartialEq, Eq, Structural)]
pub struct WindowSetup {
    /// The style mask.
    pub style_mask: WindowStyleMask,
    /// Whether dragging the background moves the window: nothing else
    /// drags a borderless window, and a titled one drags by its titlebar.
    pub movable_by_background: bool,
    /// Whether the titlebar is transparent, so the material runs unbroken to
    /// the top of the window.
    pub titlebar_transparent: bool,
    /// Whether the title text is hidden; the surface draws its own.
    pub title_hidden: bool,
    /// Whether the window paints an opaque background. Never: the material
    /// samples what is behind the window.
    pub opaque: bool,
    /// Whether the window may join a tab group, which would put a tab bar
    /// over the material.
    pub tabbing_allowed: bool,
    /// Whether the window is restored at relaunch.
    pub restorable: bool,
    /// Whether closing releases the window; never, since its owner holds
    /// it and Escape may close it.
    pub released_when_closed: bool,
}

impl Chrome {
    /// The style mask this chrome builds the window with.
    pub fn style_mask(self) -> (mask: WindowStyleMask)
        ensures
            mask.0 == chrome_bits(self),
    {
        match self {
            Chrome::Borderless => WindowStyleMask(STYLE_BORDERLESS | STYLE_RESIZABLE),
            Chrome::Titled => WindowStyleMask(
                STYLE_TITLED | STYLE_FULL_SIZE_CONTENT_VIEW | STYLE_CLOSABLE | STYLE_MINIATURIZABLE
                    | STYLE_RESIZABLE,
            ),
        }
    }

    /// Whether this is the borderless shape, which lacks the behaviours that
    /// live in the theme frame.
    pub fn is_borderless(self) -> (borderless: bool)
        ensures
            borderless == (self == Chrome::Borderless),
    {
        match self {
            Chrome::Borderless => true,
            Chrome::Titled => false,
        }
    }

    /// How a window of this chrome is configured at construction.
    pub fn setup(self) -> (setup: WindowSetup)
        ensures
            setup.style_mask.0 == chrome_bits(self),
            setup.movable_by_background == (self == Chrome::Borderless),
            setup.titlebar_transparent == (self == Chrome::Titled),
            setup.title_hidden == (self == Chrome::Titled),
            !setup.opaque,
            !setup.tabbing_allowed,
            !setup.restorable,
            !setup.released_when_closed,
    {
        let titled = match self {
            Chrome::Borderless => false,
            Chrome::Titled => true,
        };
        WindowSetup {
            style_mask: self.style_mask(),
            movable_by_background: !titled,
            titlebar_transparent: titled,
            title_hidden: titled,
            opaque: false,
            tabbing_allowed: false,
            restorable: false,
            released_when_closed: false,
        }
    }
}

/// Per-window state that has no `NSWindow` equivalent.
#[derive(Debug, Clone, Copy, PartialEq, Eq, Default, Structural)]
pub struct WindowState {
    /// Whether Escape closes the window. Off by default: a window that
    /// vanishes on Escape is a surprise unless the caller asked for it.
    pub close_on_escape: bool,
}

/// Whether Escape closes the window, given whether it is enabled and the
/// delegate's answer to `windowShouldClose:` (`None` when the delegate does
/// not implement it, or there is no delegate).
pub open spec fn escape_closes(close_on_escape: bool, delegate_answer: Option<bool>) -> bool {
    close_on_escape && delegate_answer != Some(false)
}

/// Escape never overrules a delegate's veto and does nothing unless
/// enabled; enabled and unvetoed, it closes.
pub proof fn law_escape_respects_the_delegate(enabled: bool, answer: Option<bool>)
    ensures
        answer == Some(false) ==> !escape_closes(enabled, answer),
        !enabled ==> !escape_closes(enabled, answer),
        enabled && answer != Some(false) ==> escape_closes(enabled, answer),
{
}

impl WindowState {
    /// The state of a new window: Escape does not close it.
    pub fn new() -> (state: WindowState)
        ensures
            !state.close_on_escape,
    {
        WindowState { close_on_escape: false }
    }

    /// Whether Escape should consult the delegate at all: only when Escape
    /// is to close the window.
    pub fn escape_consults_delegate(&self) -> (consult: bool)
        ensures
            consult == self.close_on_escape,
    {
        self.close_on_escape
    }

    /// Whether Escape closes the window, given the delegate's answer to
    /// `windowShouldClose:`.
    ///
    /// The delegate is consulted as `performClose:` would, so a consumer that
    /// vetoes closing (an unsaved-changes prompt) is not overruled by Escape
    /// while its veto holds for every other route.
    pub fn escape_closes(&self, delegate_answer: Option<bool>) -> (close: bool)
        ensures
            close == escape_closes(self.close_on_escape, delegate_answer),
    {
        if !self.close_on_escape {
            return false;
        }
        match delegate_answer {
            Some(false) => false,
            _ => true,
        }
    }
}

/// Whether setting the shadow to `wanted` changes anything, given the
/// current setting. A change also discards the cached shadow shape, which
/// for a transparent window comes from the rendered content.
pub fn shadow_changes(current: bool, wanted: bool) -> (changes: bool)
    ensures
        changes == (current != wanted),
{
    current != wanted
}

} // verus!
