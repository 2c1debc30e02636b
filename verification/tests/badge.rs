use barterm::badge::{wanted_icon, TrayBadge, TrayIcon, BADGE_ICON_PATH};

#[test]
fn badge_icon_lies_below_the_resource_directory() {
    assert_eq!(BADGE_ICON_PATH, "icons/icon-badge.png");
}

#[test]
fn a_request_names_the_image_to_load() {
    assert_eq!(wanted_icon(true), TrayIcon::Badge);
    assert_eq!(wanted_icon(false), TrayIcon::Default);
}

#[test]
fn a_new_badge_is_plain() {
    let badge = TrayBadge::new();
    assert!(!badge.has_unread());
    assert_eq!(badge.icon(), TrayIcon::Default);
}

#[test]
fn setting_the_badge_swaps_the_icon() {
    let mut badge = TrayBadge::new();
    assert_eq!(badge.set_tray_badge(true, true), Some(TrayIcon::Badge));
    assert!(badge.has_unread());
    assert_eq!(badge.icon(), TrayIcon::Badge);
    assert_eq!(badge.set_tray_badge(false, true), Some(TrayIcon::Default));
    assert!(!badge.has_unread());
    assert_eq!(badge.icon(), TrayIcon::Default);
}

#[test]
fn an_image_that_cannot_be_loaded_leaves_the_icon_unchanged() {
    let mut badge = TrayBadge::new();
    assert_eq!(badge.set_tray_badge(true, false), None);
    assert!(!badge.has_unread());
    assert_eq!(badge.set_tray_badge(true, true), Some(TrayIcon::Badge));
    assert_eq!(badge.set_tray_badge(false, false), None);
    assert!(badge.has_unread());
    assert_eq!(badge.icon(), TrayIcon::Badge);
}

#[test]
fn showing_the_window_clears_the_badge() {
    let mut badge = TrayBadge::new();
    badge.set_tray_badge(true, true);
    assert_eq!(badge.clear_on_show(true), Some(TrayIcon::Default));
    assert!(!badge.has_unread());
    assert_eq!(badge.clear_on_show(true), Some(TrayIcon::Default));
    assert!(!badge.has_unread());
}

#[test]
fn clearing_without_the_plain_icon_changes_nothing() {
    let mut badge = TrayBadge::new();
    badge.set_tray_badge(true, true);
    assert_eq!(badge.clear_on_show(false), None);
    assert!(badge.has_unread());
}
