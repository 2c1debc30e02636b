//! The visibility controller: what the host does to the window when the
//! tray icon is clicked, the hotkey is pressed or a command arrives.
//!
//! The window's visibility belongs to the host. The controller is handed
//! what the host observed and answers with the actions to perform, in the
//! order in which they are to be performed. A failed action is the host's
//! to drop: the next request starts from what is observed then.

use vstd::prelude::*;
use crate::geometry::{
    outer_size_or_fallback, position_below, position_below_tray, size_or_fallback, TrayRect,
    WindowGeometry, WindowPosition,
};

verus! {

/// Whether the main window is on screen.
#[derive(Clone, Copy, Debug, PartialEq, Eq, Structural)]
pub enum Visibility {
    Hidden,
    Visible,
}

/// The windows of the application.
#[derive(Clone, Copy, Debug, PartialEq, Eq, Structural)]
pub enum WindowId {
    Main,
    About,
}

/// One thing for the host to do.
#[derive(Clone, Copy, Debug, PartialEq, Eq, Structural)]
pub enum HostAction {
    /// Write the main window's current outer size to the preference store
    /// and flush the store.
    SaveSize,
    /// Hide the main window.
    Hide,
    /// Move the main window's top-left corner.
    MoveTo(WindowPosition),
    /// Show a window.
    Show(WindowId),
    /// Give a window the input focus.
    Focus(WindowId),
    /// Put the plain icon back on the tray and forget the unread mark.
    ClearBadge,
    /// Tell the frontend to switch to its settings view.
    EmitShowSettings,
    /// Open the settings file in the user's editor.
    OpenConfig,
    /// End the process.
    Exit,
}

/// What to do, and how the main window stands once it is done.
#[derive(Debug, PartialEq, Eq)]
pub struct Transition {
    pub next: Visibility,
    pub actions: Vec<HostAction>,
}

/// The other state.
pub open spec fn toggled(state: Visibility) -> Visibility {
    match state {
        Visibility::Hidden => Visibility::Visible,
        Visibility::Visible => Visibility::Hidden,
    }
}

/// The state after `n` toggles.
pub open spec fn after_toggles(start: Visibility, n: nat) -> Visibility
    decreases n,
{
    if n == 0 {
        start
    } else {
        toggled(after_toggles(start, (n - 1) as nat))
    }
}

/// How one action that succeeded changes the main window's visibility.
pub open spec fn after_action(state: Visibility, action: HostAction) -> Visibility {
    match action {
        HostAction::Hide => Visibility::Hidden,
        HostAction::Show(WindowId::Main) => Visibility::Visible,
        _ => state,
    }
}

/// The main window's visibility once all of `actions` have succeeded.
pub open spec fn after_actions(state: Visibility, actions: Seq<HostAction>) -> Visibility
    decreases actions.len(),
{
    if actions.len() == 0 {
        state
    } else {
        after_action(after_actions(state, actions.drop_last()), actions.last())
    }
}

/// Hiding: the size is written down first, so that it is not lost if the
/// process ends while the window goes away.
pub open spec fn hide_actions() -> Seq<HostAction> {
    seq![HostAction::SaveSize, HostAction::Hide]
}

/// Showing without moving: the window comes up where it was.
pub open spec fn show_actions() -> Seq<HostAction> {
    seq![HostAction::Show(WindowId::Main), HostAction::Focus(WindowId::Main)]
}

/// The move that puts the window under the tray icon, or nothing where the
/// platform gave no tray rectangle. A window whose size could not be
/// queried is placed as one of the fallback size.
pub open spec fn placement(tray: Option<TrayRect>, size: Option<WindowGeometry>) -> Seq<
    HostAction,
> {
    match tray {
        Some(rect) => seq![HostAction::MoveTo(position_below(rect, size_or_fallback(size)))],
        None => seq![],
    }
}

/// What a toggle does in each state.
pub open spec fn toggle_actions(
    current: Visibility,
    tray: Option<TrayRect>,
    size: Option<WindowGeometry>,
) -> Seq<HostAction> {
    match current {
        Visibility::Visible => hide_actions(),
        Visibility::Hidden => placement(tray, size) + show_actions() + seq![
            HostAction::ClearBadge,
        ],
    }
}

/// What losing the input focus does: a hide where the policy asks for it
/// and the window is up, nothing otherwise.
pub open spec fn focus_lost_actions(auto_hide: bool, current: Visibility) -> Seq<HostAction> {
    if auto_hide && current == Visibility::Visible {
        hide_actions()
    } else {
        seq![]
    }
}

/// The state that the host's answer to "is the window visible" stands
/// for: a window that is missing, or whose state cannot be queried, counts
/// as hidden.
pub open spec fn observed(query: Option<bool>) -> Visibility {
    if query == Some(true) {
        Visibility::Visible
    } else {
        Visibility::Hidden
    }
}

/// Reads the host's answer to "is the window visible".
pub fn observe(query: Option<bool>) -> (state: Visibility)
    ensures
        state == observed(query),
{
    match query {
        Some(true) => Visibility::Visible,
        _ => Visibility::Hidden,
    }
}

/// Answers the visibility query: `true` only for a window that exists and
/// reports itself visible.
pub fn is_window_visible(query: Option<bool>) -> (visible: bool)
    ensures
        visible == (query == Some(true)),
        visible == (observed(query) == Visibility::Visible),
{
    match query {
        Some(true) => true,
        _ => false,
    }
}

/// Toggles the main window. A visible window has its size saved and is
/// then hidden. A hidden window is moved under the tray icon, where the
/// icon's rectangle is known, then shown and focused, and the tray badge is
/// cleared.
pub fn toggle_window(
    current: Visibility,
    tray: Option<TrayRect>,
    size: Option<WindowGeometry>,
) -> (t: Transition)
    ensures
        t.next == toggled(current),
        t.actions@ == toggle_actions(current, tray, size),
        t.next == after_actions(current, t.actions@),
{
    let mut actions: Vec<HostAction> = Vec::new();
    match current {
        Visibility::Visible => {
            actions.push(HostAction::SaveSize);
            actions.push(HostAction::Hide);
            proof {
                assert(actions@ =~= hide_actions());
                lemma_hide_hides(current);
            }
            Transition { next: Visibility::Hidden, actions }
        },
        Visibility::Hidden => {
            match tray {
                Some(rect) => {
                    let position = position_below_tray(rect, outer_size_or_fallback(size));
                    actions.push(HostAction::MoveTo(position));
                },
                None => {},
            }
            actions.push(HostAction::Show(WindowId::Main));
            actions.push(HostAction::Focus(WindowId::Main));
            actions.push(HostAction::ClearBadge);
            proof {
                assert(actions@ =~= toggle_actions(current, tray, size));
                lemma_toggle_toggles(current, tray, size);
            }
            Transition { next: Visibility::Visible, actions }
        },
    }
}

/// Shows and focuses the main window where it stands, whatever its state.
pub fn show_window() -> (t: Transition)
    ensures
        t.next == Visibility::Visible,
        t.actions@ == show_actions(),
{
    let mut actions: Vec<HostAction> = Vec::new();
    actions.push(HostAction::Show(WindowId::Main));
    actions.push(HostAction::Focus(WindowId::Main));
    assert(actions@ =~= show_actions());
    Transition { next: Visibility::Visible, actions }
}

/// Saves the main window's size and hides it, whatever its state.
pub fn close_window() -> (t: Transition)
    ensures
        t.next == Visibility::Hidden,
        t.actions@ == hide_actions(),
{
    let mut actions: Vec<HostAction> = Vec::new();
    actions.push(HostAction::SaveSize);
    actions.push(HostAction::Hide);
    assert(actions@ =~= hide_actions());
    Transition { next: Visibility::Hidden, actions }
}

/// Reacts to the main window losing the input focus. With `auto_hide` set
/// a visible window is hidden as by `close_window`; otherwise nothing
/// happens.
pub fn focus_lost(auto_hide: bool, current: Visibility) -> (t: Transition)
    ensures
        t.actions@ == focus_lost_actions(auto_hide, current),
        t.next == after_actions(current, t.actions@),
        t.next == (if auto_hide {
            Visibility::Hidden
        } else {
            current
        }),
{
    if auto_hide && current == Visibility::Visible {
        proof {
            lemma_hide_hides(current);
        }
        close_window()
    } else {
        let actions: Vec<HostAction> = Vec::new();
        assert(actions@ =~= Seq::<HostAction>::empty());
        Transition { next: current, actions }
    }
}

/// Carrying out the hide actions leaves the window hidden, from any state.
pub proof fn lemma_hide_hides(state: Visibility)
    ensures
        after_actions(state, hide_actions()) == Visibility::Hidden,
{
    reveal_with_fuel(after_actions, 3);
}

/// Carrying out the show actions leaves the window visible, from any
/// state: showing is idempotent, and so is hiding.
pub proof fn lemma_show_and_hide_are_idempotent(state: Visibility)
    ensures
        after_actions(state, show_actions()) == Visibility::Visible,
        after_actions(after_actions(state, show_actions()), show_actions()) == after_actions(
            state,
            show_actions(),
        ),
        after_actions(after_actions(state, hide_actions()), hide_actions()) == after_actions(
            state,
            hide_actions(),
        ),
{
    reveal_with_fuel(after_actions, 3);
}

/// Carrying out a toggle's actions flips the visibility, whatever the tray
/// rectangle and the window's size are.
pub proof fn lemma_toggle_toggles(
    current: Visibility,
    tray: Option<TrayRect>,
    size: Option<WindowGeometry>,
)
    ensures
        after_actions(current, toggle_actions(current, tray, size)) == toggled(current),
{
    reveal_with_fuel(after_actions, 5);
    let actions = toggle_actions(current, tray, size);
    if current == Visibility::Hidden {
        let shown = actions.drop_last().drop_last();
        assert(actions.last() == HostAction::ClearBadge);
        assert(actions.drop_last().last() == HostAction::Focus(WindowId::Main));
        assert(shown.last() == HostAction::Show(WindowId::Main));
    }
}

/// Alternation law: starting from a hidden window, the window is visible
/// after an odd number of toggles and hidden after an even number.
pub proof fn lemma_toggles_alternate(n: nat)
    ensures
        after_toggles(Visibility::Hidden, n) == (if n % 2 == 0 {
            Visibility::Hidden
        } else {
            Visibility::Visible
        }),
    decreases n,
{
    if n > 0 {
        lemma_toggles_alternate((n - 1) as nat);
    }
}

/// Ordering law: in the actions of a toggle, a hide is never the first
/// action and the action just before it saves the size.
pub proof fn lemma_size_is_saved_before_hide(
    current: Visibility,
    tray: Option<TrayRect>,
    size: Option<WindowGeometry>,
    i: int,
)
    requires
        0 <= i < toggle_actions(current, tray, size).len(),
        toggle_actions(current, tray, size)[i] == HostAction::Hide,
    ensures
        i > 0,
        toggle_actions(current, tray, size)[i - 1] == HostAction::SaveSize,
{
}

} // verus!
