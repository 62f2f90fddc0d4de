//! The tray: its icons, its menu and what logging out shows there.
use vstd::prelude::*;
use crate::data::{Notice, NotificationState, notice_view, title_only_notice};
use crate::text::same_text;

verus! {

/// The icons that the tray can show.
#[derive(Clone, Copy, PartialEq, Eq, Structural, Debug)]
pub enum TrayIcon {
    /// Logged in, less than half of the allowance used.
    Active,
    /// Logged in, at least half used.
    Used50,
    /// Logged in, at least nine tenths used.
    Used90,
    /// Not logged in.
    Inactive,
}

/// The resource file of each icon.
pub open spec fn icon_path(icon: TrayIcon) -> Seq<char> {
    match icon {
        TrayIcon::Active => "resources/icons/active.png"@,
        TrayIcon::Used50 => "resources/icons/used_50.png"@,
        TrayIcon::Used90 => "resources/icons/used_90.png"@,
        TrayIcon::Inactive => "resources/icons/inactive.png"@,
    }
}

impl TrayIcon {
    /// The resource file that holds this icon.
    pub fn resource_path(&self) -> (p: String)
        ensures
            p@ == icon_path(*self),
    {
        match self {
            TrayIcon::Active => String::from_str("resources/icons/active.png"),
            TrayIcon::Used50 => String::from_str("resources/icons/used_50.png"),
            TrayIcon::Used90 => String::from_str("resources/icons/used_90.png"),
            TrayIcon::Inactive => String::from_str("resources/icons/inactive.png"),
        }
    }
}

/// The icon that a live session shows for the last measured usage; a used-up
/// allowance leaves the icon as it is.
pub open spec fn spec_icon_for_usage(state: NotificationState) -> Option<TrayIcon> {
    match state {
        NotificationState::Under50 => Some(TrayIcon::Active),
        NotificationState::Used50 => Some(TrayIcon::Used50),
        NotificationState::Used90 => Some(TrayIcon::Used90),
        NotificationState::Used100 => None,
    }
}

/// The icon that a live session shows for the last measured usage.
pub fn icon_for_usage(state: NotificationState) -> (i: Option<TrayIcon>)
    ensures
        i == spec_icon_for_usage(state),
{
    match state {
        NotificationState::Under50 => Some(TrayIcon::Active),
        NotificationState::Used50 => Some(TrayIcon::Used50),
        NotificationState::Used90 => Some(TrayIcon::Used90),
        NotificationState::Used100 => None,
    }
}

/// The entries of the tray menu.
#[derive(Clone, Copy, PartialEq, Eq, Structural, Debug)]
pub enum TrayCommand {
    Quit,
    Show,
    Logout,
    Reconnect,
    Delete,
}

/// The menu entry with the identifier `id`, if there is one.
pub open spec fn spec_tray_command(id: Seq<char>) -> Option<TrayCommand> {
    if id == "quit"@ {
        Some(TrayCommand::Quit)
    } else if id == "show"@ {
        Some(TrayCommand::Show)
    } else if id == "logout"@ {
        Some(TrayCommand::Logout)
    } else if id == "reconnect"@ {
        Some(TrayCommand::Reconnect)
    } else if id == "delete"@ {
        Some(TrayCommand::Delete)
    } else {
        None
    }
}

/// The menu entry that a click on the item `id` chose.
pub fn tray_command(id: &str) -> (c: Option<TrayCommand>)
    ensures
        c == spec_tray_command(id@),
{
    if same_text(id, "quit") {
        Some(TrayCommand::Quit)
    } else if same_text(id, "show") {
        Some(TrayCommand::Show)
    } else if same_text(id, "logout") {
        Some(TrayCommand::Logout)
    } else if same_text(id, "reconnect") {
        Some(TrayCommand::Reconnect)
    } else if same_text(id, "delete") {
        Some(TrayCommand::Delete)
    } else {
        None
    }
}

/// What the tray shows after a logout request: whether the portal took it.
/// A logout that went through turns the icon inactive.
pub fn logout_outcome(logged_out: bool) -> (r: (Option<TrayIcon>, Notice))
    ensures
        logged_out ==> r.0 == Some(TrayIcon::Inactive) && notice_view(r.1) == (
            "Logged out of campnet!"@,
            None::<Seq<char>>,
        ),
        !logged_out ==> r.0 is None && notice_view(r.1) == (
            "Unable to logout of campnet!"@,
            None::<Seq<char>>,
        ),
{
    if logged_out {
        (Some(TrayIcon::Inactive), title_only_notice("Logged out of campnet!"))
    } else {
        (None, title_only_notice("Unable to logout of campnet!"))
    }
}

} // verus!
