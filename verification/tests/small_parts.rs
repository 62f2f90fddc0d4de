use autocampnet::data::Credentials;
use autocampnet::launch::{bundle_path, parse_bool};
use autocampnet::notification::{
    notify_creds_saved, notify_failure_generic, notify_incorrect_creds, notify_limit_exceeded,
    notify_logged_in, notify_logged_out, notify_logout_error,
};
use autocampnet::tray::{icon_for_usage, logout_outcome, tray_command, TrayCommand, TrayIcon};
use autocampnet::data::NotificationState;

#[test]
fn notices_have_their_texts() {
    let cases = [
        (notify_logged_in(), "Connected to Campnet!", "Logged in successfully to campus network"),
        (notify_incorrect_creds(), "Could not connect to Campnet!", "Incorrect credentials were provided"),
        (notify_limit_exceeded(), "Could not connect to Campnet!", "Daily data limit exceeded on credentials"),
        (notify_failure_generic(), "Could not connect to Campnet!", "There was an issue with the login attempt"),
        (notify_logged_out(), "Logged out of campnet!", ""),
        (notify_logout_error(), "Unable to logout of campnet!", ""),
        (notify_creds_saved(), "Credentials saved to disk", "App will try to login to campnet whenever available"),
    ];
    for (n, title, body) in cases {
        assert_eq!(n.title, title);
        assert_eq!(n.body.as_deref(), Some(body));
    }
}

#[test]
fn default_credentials_are_blank() {
    let c = Credentials::default();
    assert!(c.username.is_empty() && c.password.is_empty());
    assert!(c.has_blank_field());
    let full = Credentials { username: "u".to_string(), password: "p".to_string() };
    assert!(!full.has_blank_field());
    let half = Credentials { username: "u".to_string(), password: String::new() };
    assert!(half.has_blank_field());
}

#[test]
fn tray_menu_and_icons() {
    assert_eq!(tray_command("quit"), Some(TrayCommand::Quit));
    assert_eq!(tray_command("show"), Some(TrayCommand::Show));
    assert_eq!(tray_command("logout"), Some(TrayCommand::Logout));
    assert_eq!(tray_command("reconnect"), Some(TrayCommand::Reconnect));
    assert_eq!(tray_command("delete"), Some(TrayCommand::Delete));
    assert_eq!(tray_command("Quit"), None);
    assert_eq!(TrayIcon::Active.resource_path(), "resources/icons/active.png");
    assert_eq!(TrayIcon::Used50.resource_path(), "resources/icons/used_50.png");
    assert_eq!(TrayIcon::Used90.resource_path(), "resources/icons/used_90.png");
    assert_eq!(TrayIcon::Inactive.resource_path(), "resources/icons/inactive.png");
    assert_eq!(icon_for_usage(NotificationState::Under50), Some(TrayIcon::Active));
    assert_eq!(icon_for_usage(NotificationState::Used100), None);
}

#[test]
fn logout_outcomes() {
    let (icon, n) = logout_outcome(true);
    assert_eq!(icon, Some(TrayIcon::Inactive));
    assert_eq!(n.title, "Logged out of campnet!");
    assert!(n.body.is_none());
    let (icon, n) = logout_outcome(false);
    assert_eq!(icon, None);
    assert_eq!(n.title, "Unable to logout of campnet!");
}

#[test]
fn launch_helpers() {
    assert_eq!(parse_bool("true"), Some(true));
    assert_eq!(parse_bool("false"), Some(false));
    assert_eq!(parse_bool("True"), None);
    assert_eq!(parse_bool(""), None);
    assert_eq!(bundle_path("/Applications/AutoCampnet.app/Contents/MacOS/AutoCampnet"), "/Applications/AutoCampnet.app");
    assert_eq!(bundle_path("/usr/bin/autocampnet"), "/usr/bin/autocampnet");
    assert_eq!(bundle_path("/a.app/b.app/c"), "/a.app/b.app/c");
}
