use barterm::events::{
    dispatch, hotkey_toggles, menu_actions, menu_command, save_size, show_about, show_settings,
    tray_click_toggles, ButtonState, HostEvent, KeyState, MenuCommand, MouseButton, Observation,
    WindowObservation,
};
use barterm::geometry::{TrayRect, WindowGeometry, WindowPosition};
use barterm::visibility::{toggle_window, HostAction, Visibility, WindowId};

const TRAY: TrayRect = TrayRect { x: 1000, y: 0, width: 24, height: 24 };
const SIZE: WindowGeometry = WindowGeometry { width: 600, height: 400 };

fn seen(visible: Option<bool>) -> Observation {
    Observation {
        window: Some(WindowObservation { visible, size: Some(SIZE) }),
        tray: Some(TRAY),
    }
}

const NO_WINDOW: Observation = Observation { window: None, tray: Some(TRAY) };

const CLICK: HostEvent = HostEvent::TrayClick(MouseButton::Left, ButtonState::Up);
const PRESS: HostEvent = HostEvent::Hotkey(KeyState::Pressed);

#[test]
fn only_the_release_of_the_left_button_toggles() {
    assert!(tray_click_toggles(MouseButton::Left, ButtonState::Up));
    assert!(!tray_click_toggles(MouseButton::Left, ButtonState::Down));
    assert!(!tray_click_toggles(MouseButton::Right, ButtonState::Up));
    assert!(!tray_click_toggles(MouseButton::Right, ButtonState::Down));
    assert!(!tray_click_toggles(MouseButton::Middle, ButtonState::Up));
    assert!(!tray_click_toggles(MouseButton::Middle, ButtonState::Down));
}

#[test]
fn only_the_press_of_the_hotkey_toggles() {
    assert!(hotkey_toggles(KeyState::Pressed));
    assert!(!hotkey_toggles(KeyState::Released));
}

#[test]
fn menu_identifiers_name_their_entries() {
    assert_eq!(menu_command("about"), Some(MenuCommand::About));
    assert_eq!(menu_command("settings"), Some(MenuCommand::Settings));
    assert_eq!(menu_command("open_config"), Some(MenuCommand::OpenConfig));
    assert_eq!(menu_command("quit"), Some(MenuCommand::Quit));
}

#[test]
fn unknown_menu_identifiers_are_ignored() {
    assert_eq!(menu_command(""), None);
    assert_eq!(menu_command("About"), None);
    assert_eq!(menu_command("quit "), None);
    assert_eq!(menu_command("open-config"), None);
    assert_eq!(menu_command("toggle"), None);
}

#[test]
fn menu_entries_map_to_their_actions() {
    assert_eq!(
        menu_actions(MenuCommand::About),
        vec![HostAction::Show(WindowId::About), HostAction::Focus(WindowId::About)]
    );
    assert_eq!(
        menu_actions(MenuCommand::Settings),
        vec![
            HostAction::EmitShowSettings,
            HostAction::Show(WindowId::Main),
            HostAction::Focus(WindowId::Main),
        ]
    );
    assert_eq!(menu_actions(MenuCommand::OpenConfig), vec![HostAction::OpenConfig]);
    assert_eq!(menu_actions(MenuCommand::Quit), vec![HostAction::Exit]);
}

#[test]
fn commands_map_to_their_actions() {
    assert_eq!(show_about(), menu_actions(MenuCommand::About));
    assert_eq!(show_settings(), menu_actions(MenuCommand::Settings));
    assert_eq!(save_size(), vec![HostAction::SaveSize]);
}

#[test]
fn tray_click_and_hotkey_press_ask_for_the_same_toggle() {
    for visible in [Some(true), Some(false), None].iter() {
        for auto_hide in [false, true].iter() {
            let click = dispatch(CLICK, seen(*visible), *auto_hide);
            let press = dispatch(PRESS, seen(*visible), *auto_hide);
            assert_eq!(click, press);
            assert!(!click.is_empty());
        }
    }
    let shown = dispatch(CLICK, seen(Some(false)), false);
    assert_eq!(shown, toggle_window(Visibility::Hidden, Some(TRAY), Some(SIZE)).actions);
    assert_eq!(
        shown,
        vec![
            HostAction::MoveTo(WindowPosition { x: 712, y: 29 }),
            HostAction::Show(WindowId::Main),
            HostAction::Focus(WindowId::Main),
            HostAction::ClearBadge,
        ]
    );
    let hidden = dispatch(PRESS, seen(Some(true)), false);
    assert_eq!(hidden, vec![HostAction::SaveSize, HostAction::Hide]);
}

#[test]
fn a_toggle_of_a_window_that_cannot_be_queried_shows_it() {
    let actions = dispatch(PRESS, seen(None), false);
    assert_eq!(actions, dispatch(PRESS, seen(Some(false)), false));
}

#[test]
fn other_clicks_and_the_release_of_the_hotkey_ask_for_nothing() {
    let others = [
        HostEvent::TrayClick(MouseButton::Left, ButtonState::Down),
        HostEvent::TrayClick(MouseButton::Right, ButtonState::Up),
        HostEvent::TrayClick(MouseButton::Right, ButtonState::Down),
        HostEvent::TrayClick(MouseButton::Middle, ButtonState::Up),
        HostEvent::TrayClick(MouseButton::Middle, ButtonState::Down),
        HostEvent::Hotkey(KeyState::Released),
    ];
    for event in others.iter() {
        assert!(dispatch(*event, seen(Some(true)), true).is_empty());
        assert!(dispatch(*event, seen(Some(false)), false).is_empty());
    }
}

#[test]
fn without_a_main_window_only_menu_entries_do_anything() {
    assert!(dispatch(CLICK, NO_WINDOW, false).is_empty());
    assert!(dispatch(PRESS, NO_WINDOW, true).is_empty());
    assert!(dispatch(HostEvent::FocusLost, NO_WINDOW, true).is_empty());
    assert_eq!(
        dispatch(HostEvent::Menu(MenuCommand::Quit), NO_WINDOW, false),
        vec![HostAction::Exit]
    );
}

#[test]
fn menu_events_do_what_the_entry_names() {
    for command in
        [MenuCommand::About, MenuCommand::Settings, MenuCommand::OpenConfig, MenuCommand::Quit]
            .iter()
    {
        assert_eq!(
            dispatch(HostEvent::Menu(*command), seen(Some(true)), true),
            menu_actions(*command)
        );
    }
}

#[test]
fn focus_loss_hides_a_visible_window_under_the_auto_hide_policy() {
    assert_eq!(
        dispatch(HostEvent::FocusLost, seen(Some(true)), true),
        vec![HostAction::SaveSize, HostAction::Hide]
    );
    assert!(dispatch(HostEvent::FocusLost, seen(Some(true)), false).is_empty());
    assert!(dispatch(HostEvent::FocusLost, seen(Some(false)), true).is_empty());
    assert!(dispatch(HostEvent::FocusLost, seen(None), true).is_empty());
}

#[test]
fn only_a_toggle_that_shows_clears_the_badge() {
    let events = [
        CLICK,
        PRESS,
        HostEvent::Hotkey(KeyState::Released),
        HostEvent::TrayClick(MouseButton::Right, ButtonState::Up),
        HostEvent::Menu(MenuCommand::About),
        HostEvent::Menu(MenuCommand::Settings),
        HostEvent::Menu(MenuCommand::OpenConfig),
        HostEvent::Menu(MenuCommand::Quit),
        HostEvent::FocusLost,
    ];
    for event in events.iter() {
        for visible in [Some(true), Some(false), None].iter() {
            let clears =
                dispatch(*event, seen(*visible), true).contains(&HostAction::ClearBadge);
            let toggle = *event == CLICK || *event == PRESS;
            assert_eq!(clears, toggle && *visible != Some(true));
        }
    }
}
