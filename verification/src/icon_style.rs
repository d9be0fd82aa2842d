//! Tracking System Settings ▸ Appearance ▸ Icon & widget style.
//!
//! Three things about this setting are not obvious. The four-option UI is
//! nine tokens, and choosing "Default" removes the key rather than writing a
//! value. `defaults write` does not apply it. And no notification centre
//! posts a change: KVO on the global domain is the only event source that
//! fires, and its callback must never read a preference.

pub mod observer;
pub mod token;
pub mod widget_style;

pub use crate::interval::Interval;
pub use observer::{enqueue_on_change, ObserverState, Reconcile, WATCHED_KEYS};
pub use token::{
    IconAppearanceToken, IconStyle, ThemeMode, UnknownThemeValue, UnknownToken,
    ICON_APPEARANCE_KEY,
};
pub use widget_style::{current_from_sources, resolve, WidgetStyle};
