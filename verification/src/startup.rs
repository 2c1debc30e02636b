//! What the host sets up when the application starts.

use vstd::prelude::*;
use crate::geometry::{size_or_fallback, WindowGeometry};
use crate::opacity::{clamped, is_nan, WindowOpacity};
use crate::preferences::{shortcut_or, stored_opacity_bits, stored_shortcut, stored_size};
use crate::store::PreferenceStore;
use crate::shortcut::DEFAULT_TOGGLE_SHORTCUT;

verus! {

/// The settings that the window and the hotkey start with.
pub struct StartupPlan {
    /// The size to give the window.
    pub size: WindowGeometry,
    /// The opacity to apply, if one is stored.
    pub opacity: Option<WindowOpacity>,
    /// The toggle combination to request from the shortcut registrar.
    pub shortcut: String,
}

/// Reads the startup settings from the preference document. Whatever the
/// document lacks, or holds in a form that cannot be used, is replaced: the
/// size by 600 by 400, the combination by the default. A missing opacity is
/// left to the platform.
pub fn startup_plan(store: &PreferenceStore) -> (plan: StartupPlan)
    ensures
        plan.size == size_or_fallback(stored_size(store@)),
        plan.size.is_valid(),
        plan.shortcut@ == shortcut_or(stored_shortcut(store@)),
        match stored_opacity_bits(store@) {
            Some(bits) => if is_nan(bits) {
                plan.opacity is None
            } else {
                plan.opacity matches Some(o) && o@ == clamped(bits)
            },
            None => plan.opacity is None,
        },
        store@ == Map::<Seq<char>, serde_json::Value>::empty() ==> plan.size
            == WindowGeometry::spec_fallback() && plan.opacity is None && plan.shortcut@
            == DEFAULT_TOGGLE_SHORTCUT@,
{
    StartupPlan {
        size: store.startup_size(),
        opacity: store.opacity(),
        shortcut: store.toggle_shortcut(),
    }
}

} // verus!
