//! The tray badge: whether the tray icon shows the unread mark.
//!
//! The icon images are the host's to load. The coordinator names the
//! image that a request calls for; once the host has tried to load it, the
//! coordinator says whether the icon is swapped. An image that cannot be
//! loaded leaves the icon, and the mark, as they were.

use vstd::prelude::*;

verus! {

/// Where the badged icon lies, below the application's resource directory.
pub const BADGE_ICON_PATH: &'static str = "icons/icon-badge.png";

/// One of the two images of the tray icon.
#[derive(Clone, Copy, Debug, PartialEq, Eq, Structural)]
pub enum TrayIcon {
    /// The application's plain icon.
    Default,
    /// The icon with the unread mark.
    Badge,
}

/// The image that shows the given unread state.
pub open spec fn icon_for(has_unread: bool) -> TrayIcon {
    if has_unread {
        TrayIcon::Badge
    } else {
        TrayIcon::Default
    }
}

/// The tray badge. It is not written to the store: after a restart the
/// icon is plain.
pub struct TrayBadge {
    has_unread: bool,
}

impl View for TrayBadge {
    type V = bool;

    closed spec fn view(&self) -> bool {
        self.has_unread
    }
}

impl TrayBadge {
    /// A badge without the unread mark.
    pub fn new() -> (badge: TrayBadge)
        ensures
            badge@ == false,
    {
        TrayBadge { has_unread: false }
    }

    /// Tells whether the icon shows the unread mark.
    pub fn has_unread(&self) -> (unread: bool)
        ensures
            unread == self@,
    {
        self.has_unread
    }

    /// The image that the icon shows.
    pub fn icon(&self) -> (icon: TrayIcon)
        ensures
            icon == icon_for(self@),
    {
        wanted_icon(self.has_unread)
    }

    /// Sets or clears the unread mark, given whether the host could load
    /// the image returned by `wanted_icon`. With the image at hand the mark
    /// is as requested and the result is the image to put on the tray.
    /// Without it nothing changes and the result is `None`.
    pub fn set_tray_badge(&mut self, has_unread: bool, loaded: bool) -> (swap: Option<TrayIcon>)
        ensures
            loaded ==> final(self)@ == has_unread && swap == Some(icon_for(has_unread)),
            !loaded ==> final(self)@ == old(self)@ && swap is None,
    {
        if loaded {
            self.has_unread = has_unread;
            Some(wanted_icon(has_unread))
        } else {
            None
        }
    }

    /// Clears the unread mark because the window was shown by a toggle,
    /// given whether the host has the plain icon at hand.
    pub fn clear_on_show(&mut self, loaded: bool) -> (swap: Option<TrayIcon>)
        ensures
            loaded ==> final(self)@ == false && swap == Some(TrayIcon::Default),
            !loaded ==> final(self)@ == old(self)@ && swap is None,
    {
        self.set_tray_badge(false, loaded)
    }
}

/// The image that the host is to load for a request: the badged icon from
/// `BADGE_ICON_PATH` to set the mark, the application's plain icon to
/// clear it.
pub fn wanted_icon(has_unread: bool) -> (icon: TrayIcon)
    ensures
        icon == icon_for(has_unread),
{
    if has_unread {
        TrayIcon::Badge
    } else {
        TrayIcon::Default
    }
}

} // verus!
