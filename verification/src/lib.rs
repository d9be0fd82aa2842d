//! Liquid Glass windows on macOS that follow the system Icon & widget style.
//!
//! This crate holds the decisions behind such a window as verified,
//! platform-independent code: the nine Icon & widget style tokens and their
//! fallbacks, the observer that keeps a surface in step with the preference,
//! the light/dark resolution, the window shapes, the main menu layout and the
//! input bookkeeping of a drawable view. The AppKit side that performs those
//! decisions hands it plain values and acts on what it returns.

pub mod appearance;
pub mod bundle;
pub mod drawable;
pub mod glass;
pub mod icon_style;
pub mod interval;
pub mod menu;
pub mod text;
pub mod window;

pub use appearance::is_dark;
