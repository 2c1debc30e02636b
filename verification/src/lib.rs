//! Controller core of a tray-resident, single-window desktop utility.
//!
//! The host application owns the window, the tray icon, the global hotkey
//! and the settings file. This crate holds the rules that decide what the
//! host does with them: when the window is shown, hidden and positioned,
//! when a resized window's size is written down, which hotkey is armed, and
//! what the preference document holds. Every function here is a plain
//! computation with a proved contract; the host performs the effects.

pub mod badge;
pub mod debounce;
pub mod events;
pub mod geometry;
pub mod json;
pub mod opacity;
pub mod preferences;
pub mod shortcut;
pub mod startup;
pub mod store;
pub mod text;
pub mod visibility;
