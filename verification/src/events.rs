//! The dispatch of the host's events: tray clicks, hotkey events, tray
//! menu entries and frontend commands, each mapped to what it asks for.

use vstd::prelude::*;
use crate::geometry::{TrayRect, WindowGeometry};
use crate::text::same_text;
use crate::visibility::{
    focus_lost, focus_lost_actions, observe, observed, toggle_actions, toggle_window, HostAction,
    Visibility, WindowId,
};

verus! {

/// Identifier of the tray menu's "about" entry.
pub const MENU_ABOUT: &'static str = "about";

/// Identifier of the tray menu's "settings" entry.
pub const MENU_SETTINGS: &'static str = "settings";

/// Identifier of the tray menu's "open config" entry.
pub const MENU_OPEN_CONFIG: &'static str = "open_config";

/// Identifier of the tray menu's "quit" entry.
pub const MENU_QUIT: &'static str = "quit";

/// A mouse button.
#[derive(Clone, Copy, Debug, PartialEq, Eq, Structural)]
pub enum MouseButton {
    Left,
    Right,
    Middle,
}

/// The phase of a mouse click.
#[derive(Clone, Copy, Debug, PartialEq, Eq, Structural)]
pub enum ButtonState {
    Up,
    Down,
}

/// The phase of a hotkey event.
#[derive(Clone, Copy, Debug, PartialEq, Eq, Structural)]
pub enum KeyState {
    Pressed,
    Released,
}

/// An entry of the tray menu.
#[derive(Clone, Copy, Debug, PartialEq, Eq, Structural)]
pub enum MenuCommand {
    About,
    Settings,
    OpenConfig,
    Quit,
}

/// Something that happened on the host's side.
#[derive(Clone, Copy, Debug, PartialEq, Eq, Structural)]
pub enum HostEvent {
    /// A click on the tray icon.
    TrayClick(MouseButton, ButtonState),
    /// An event of the toggle hotkey.
    Hotkey(KeyState),
    /// A choice from the tray menu.
    Menu(MenuCommand),
    /// The main window lost the input focus.
    FocusLost,
}

/// What the host found of the main window when an event came in.
#[derive(Clone, Copy, Debug, PartialEq, Eq, Structural)]
pub struct WindowObservation {
    /// Whether the window reports itself visible; `None` where the query
    /// failed.
    pub visible: Option<bool>,
    /// The window's outer size; `None` where the query failed.
    pub size: Option<WindowGeometry>,
}

/// What the host found when an event came in.
#[derive(Clone, Copy, Debug, PartialEq, Eq, Structural)]
pub struct Observation {
    /// The main window; `None` where there is none.
    pub window: Option<WindowObservation>,
    /// The tray icon's rectangle in physical pixels; `None` where the
    /// platform gives none.
    pub tray: Option<TrayRect>,
}

/// What a toggle asks for: nothing without a main window, and else what
/// the window's state calls for.
pub open spec fn toggle_request(seen: Observation) -> Seq<HostAction> {
    match seen.window {
        Some(window) => toggle_actions(observed(window.visible), seen.tray, window.size),
        None => seq![],
    }
}

/// Whether a tray click toggles the window.
pub open spec fn click_toggles(button: MouseButton, state: ButtonState) -> bool {
    button == MouseButton::Left && state == ButtonState::Up
}

/// Whether a hotkey event toggles the window.
pub open spec fn press_toggles(state: KeyState) -> bool {
    state == KeyState::Pressed
}

/// The entry that a menu identifier names, if any.
pub open spec fn menu_entry(id: Seq<char>) -> Option<MenuCommand> {
    if id == MENU_ABOUT@ {
        Some(MenuCommand::About)
    } else if id == MENU_SETTINGS@ {
        Some(MenuCommand::Settings)
    } else if id == MENU_OPEN_CONFIG@ {
        Some(MenuCommand::OpenConfig)
    } else if id == MENU_QUIT@ {
        Some(MenuCommand::Quit)
    } else {
        None
    }
}

/// What showing the about window takes.
pub open spec fn about_actions() -> Seq<HostAction> {
    seq![HostAction::Show(WindowId::About), HostAction::Focus(WindowId::About)]
}

/// What showing the settings view takes: the frontend is told first, then
/// the main window is brought up.
pub open spec fn settings_actions() -> Seq<HostAction> {
    seq![
        HostAction::EmitShowSettings,
        HostAction::Show(WindowId::Main),
        HostAction::Focus(WindowId::Main),
    ]
}

/// What a menu entry asks for.
pub open spec fn menu_entry_actions(command: MenuCommand) -> Seq<HostAction> {
    match command {
        MenuCommand::About => about_actions(),
        MenuCommand::Settings => settings_actions(),
        MenuCommand::OpenConfig => seq![HostAction::OpenConfig],
        MenuCommand::Quit => seq![HostAction::Exit],
    }
}

/// What an event asks for, given what the host observed and whether the
/// window is to hide when it loses the focus.
pub open spec fn event_actions(event: HostEvent, seen: Observation, auto_hide: bool) -> Seq<
    HostAction,
> {
    match event {
        HostEvent::TrayClick(button, state) => if click_toggles(button, state) {
            toggle_request(seen)
        } else {
            seq![]
        },
        HostEvent::Hotkey(state) => if press_toggles(state) {
            toggle_request(seen)
        } else {
            seq![]
        },
        HostEvent::Menu(command) => menu_entry_actions(command),
        HostEvent::FocusLost => match seen.window {
            Some(window) => focus_lost_actions(auto_hide, observed(window.visible)),
            None => seq![],
        },
    }
}

/// Tells whether a click on the tray icon toggles the window: only the
/// release of the left button does.
pub fn tray_click_toggles(button: MouseButton, state: ButtonState) -> (toggles: bool)
    ensures
        toggles == click_toggles(button, state),
        toggles == (button == MouseButton::Left && state == ButtonState::Up),
{
    match (button, state) {
        (MouseButton::Left, ButtonState::Up) => true,
        _ => false,
    }
}

/// Tells whether a hotkey event toggles the window: only the press does,
/// not the release that follows it.
pub fn hotkey_toggles(state: KeyState) -> (toggles: bool)
    ensures
        toggles == press_toggles(state),
        toggles == (state == KeyState::Pressed),
{
    match state {
        KeyState::Pressed => true,
        KeyState::Released => false,
    }
}

/// Finds the menu entry that an identifier names. An unknown identifier
/// names none and is ignored.
pub fn menu_command(id: &str) -> (command: Option<MenuCommand>)
    ensures
        command == menu_entry(id@),
{
    if same_text(id, MENU_ABOUT) {
        Some(MenuCommand::About)
    } else if same_text(id, MENU_SETTINGS) {
        Some(MenuCommand::Settings)
    } else if same_text(id, MENU_OPEN_CONFIG) {
        Some(MenuCommand::OpenConfig)
    } else if same_text(id, MENU_QUIT) {
        Some(MenuCommand::Quit)
    } else {
        None
    }
}

/// Shows and focuses the about window.
pub fn show_about() -> (actions: Vec<HostAction>)
    ensures
        actions@ == about_actions(),
{
    let mut actions: Vec<HostAction> = Vec::new();
    actions.push(HostAction::Show(WindowId::About));
    actions.push(HostAction::Focus(WindowId::About));
    assert(actions@ =~= about_actions());
    actions
}

/// Switches the frontend to its settings view and brings the main window
/// up.
pub fn show_settings() -> (actions: Vec<HostAction>)
    ensures
        actions@ == settings_actions(),
{
    let mut actions: Vec<HostAction> = Vec::new();
    actions.push(HostAction::EmitShowSettings);
    actions.push(HostAction::Show(WindowId::Main));
    actions.push(HostAction::Focus(WindowId::Main));
    assert(actions@ =~= settings_actions());
    actions
}

/// Saves the main window's size at once, whether or not a resize is still
/// settling: the debounce does not enter into it.
pub fn save_size() -> (actions: Vec<HostAction>)
    ensures
        actions@ == seq![HostAction::SaveSize],
{
    let mut actions: Vec<HostAction> = Vec::new();
    actions.push(HostAction::SaveSize);
    assert(actions@ =~= seq![HostAction::SaveSize]);
    actions
}

/// What the host does for a menu entry.
pub fn menu_actions(command: MenuCommand) -> (actions: Vec<HostAction>)
    ensures
        actions@ == menu_entry_actions(command),
{
    match command {
        MenuCommand::About => show_about(),
        MenuCommand::Settings => show_settings(),
        MenuCommand::OpenConfig => {
            let mut actions: Vec<HostAction> = Vec::new();
            actions.push(HostAction::OpenConfig);
            assert(actions@ =~= seq![HostAction::OpenConfig]);
            actions
        },
        MenuCommand::Quit => {
            let mut actions: Vec<HostAction> = Vec::new();
            actions.push(HostAction::Exit);
            assert(actions@ =~= seq![HostAction::Exit]);
            actions
        },
    }
}

fn toggle(seen: Observation) -> (actions: Vec<HostAction>)
    ensures
        actions@ == toggle_request(seen),
{
    match seen.window {
        Some(window) => toggle_window(observe(window.visible), seen.tray, window.size).actions,
        None => Vec::new(),
    }
}

/// Maps an event to the actions that the host is to perform, in order.
/// The release of the left button on the tray icon and the press of the
/// hotkey toggle the window; any other click or key event does nothing. A
/// menu entry does what it names. The loss of the focus hides a visible
/// window where `auto_hide` is set. Without a main window, only menu
/// entries do anything.
pub fn dispatch(event: HostEvent, seen: Observation, auto_hide: bool) -> (actions: Vec<HostAction>)
    ensures
        actions@ == event_actions(event, seen, auto_hide),
{
    match event {
        HostEvent::TrayClick(button, state) => {
            if tray_click_toggles(button, state) {
                toggle(seen)
            } else {
                Vec::new()
            }
        },
        HostEvent::Hotkey(state) => {
            if hotkey_toggles(state) {
                toggle(seen)
            } else {
                Vec::new()
            }
        },
        HostEvent::Menu(command) => menu_actions(command),
        HostEvent::FocusLost => match seen.window {
            Some(window) => focus_lost(auto_hide, observe(window.visible)).actions,
            None => Vec::new(),
        },
    }
}

/// The tray click that toggles and the hotkey press ask for the same
/// actions, whatever the host observed, and every other click and the
/// release of the hotkey ask for none.
pub proof fn lemma_click_and_press_toggle_alike(
    seen: Observation,
    auto_hide: bool,
    button: MouseButton,
    state: ButtonState,
)
    ensures
        event_actions(HostEvent::TrayClick(MouseButton::Left, ButtonState::Up), seen, auto_hide)
            == event_actions(HostEvent::Hotkey(KeyState::Pressed), seen, auto_hide),
        event_actions(HostEvent::Hotkey(KeyState::Pressed), seen, auto_hide) == toggle_request(
            seen,
        ),
        event_actions(HostEvent::Hotkey(KeyState::Released), seen, auto_hide) == Seq::<
            HostAction,
        >::empty(),
        !(button == MouseButton::Left && state == ButtonState::Up) ==> event_actions(
            HostEvent::TrayClick(button, state),
            seen,
            auto_hide,
        ) == Seq::<HostAction>::empty(),
{
}

/// Whether an event is one of the two that toggle the window.
pub open spec fn is_toggle(event: HostEvent) -> bool {
    event == HostEvent::TrayClick(MouseButton::Left, ButtonState::Up) || event
        == HostEvent::Hotkey(KeyState::Pressed)
}

/// Whether the host found a main window that counts as hidden.
pub open spec fn found_hidden(seen: Observation) -> bool {
    match seen.window {
        Some(window) => observed(window.visible) == Visibility::Hidden,
        None => false,
    }
}

/// The tray badge is cleared by one thing only: the toggle that shows the
/// window. No menu entry and no loss of the focus clears it, and a toggle
/// clears it exactly where it finds the main window hidden.
pub proof fn lemma_only_a_showing_toggle_clears_the_badge(
    event: HostEvent,
    seen: Observation,
    auto_hide: bool,
)
    ensures
        event_actions(event, seen, auto_hide).contains(HostAction::ClearBadge) <==> is_toggle(
            event,
        ) && found_hidden(seen),
{
    let actions = event_actions(event, seen, auto_hide);
    if actions.contains(HostAction::ClearBadge) {
        let i = choose|i: int| 0 <= i < actions.len() && actions[i] == HostAction::ClearBadge;
        assert(actions[i] == HostAction::ClearBadge);
    } else if is_toggle(event) && found_hidden(seen) {
        assert(actions.last() == HostAction::ClearBadge);
    }
}

} // verus!
