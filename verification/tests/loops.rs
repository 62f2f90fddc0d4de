use autocampnet::connect::{connect_step, login_plan, ConnectAction, ConnectEvent, ConnectPlan};
use autocampnet::data::NotificationState;
use autocampnet::monitor::{traffic_step, TrafficAction, TrafficEvent, TrafficSession};
use autocampnet::portal::LoginOutcome;
use autocampnet::tray::TrayIcon;

fn finish(a: ConnectAction) -> ConnectPlan {
    match a {
        ConnectAction::Finish(p) => p,
        _ => panic!("expected the run to end"),
    }
}

#[test]
fn connect_loop_walks_probe_probe_login() {
    let last = NotificationState::Under50;
    assert!(matches!(connect_step(ConnectEvent::Started { initial_run: false }, last), ConnectAction::ProbeCampnet));
    assert!(matches!(connect_step(ConnectEvent::CampnetProbed { reachable: true }, last), ConnectAction::ProbeInternet));
    assert!(matches!(connect_step(ConnectEvent::InternetProbed { reachable: false }, last), ConnectAction::SendLogin));
}

#[test]
fn connect_first_run_schedules_at_once() {
    let p = finish(connect_step(ConnectEvent::Started { initial_run: true }, NotificationState::Under50));
    assert!(p.notice.is_none() && p.icon.is_none());
    assert_eq!(p.retry_after_ms, Some(0));
    assert_eq!(p.pause_secs, 1);
}

#[test]
fn connect_stops_quietly_off_campus() {
    let p = finish(connect_step(ConnectEvent::CampnetProbed { reachable: false }, NotificationState::Under50));
    assert!(p.notice.is_none() && p.icon.is_none() && p.retry_after_ms.is_none());
    assert_eq!(p.pause_secs, 0);
    let p = finish(connect_step(ConnectEvent::LoginAnswered { reply: None }, NotificationState::Under50));
    assert!(p.notice.is_none() && p.icon.is_none() && p.retry_after_ms.is_none());
}

#[test]
fn connect_already_online_keeps_watch() {
    let p = finish(connect_step(ConnectEvent::InternetProbed { reachable: true }, NotificationState::Used90));
    assert!(p.notice.is_none());
    assert_eq!(p.icon, Some(TrayIcon::Active));
    assert_eq!(p.retry_after_ms, Some(2500));
    assert_eq!(p.pause_secs, 3);
}

#[test]
fn connect_live_login_shows_usage_icon() {
    let reply = Some("<status>LIVE</status>".to_string());
    let p = finish(connect_step(ConnectEvent::LoginAnswered { reply: reply.clone() }, NotificationState::Used50));
    let n = p.notice.unwrap();
    assert_eq!(n.title, "Connected to Campnet!");
    assert_eq!(n.body.as_deref(), Some("Logged in successfully to BPGC network"));
    assert_eq!(p.icon, Some(TrayIcon::Used50));
    assert_eq!(p.retry_after_ms, Some(2500));
    assert_eq!(p.pause_secs, 3);
    let p = finish(connect_step(ConnectEvent::LoginAnswered { reply }, NotificationState::Used100));
    assert_eq!(p.icon, None);
}

#[test]
fn connect_refused_logins_go_inactive() {
    let cases = [
        ("failed", "Could not connect to Campnet!", "Incorrect credentials were provided"),
        ("exceeded", "Could not connect to Campnet!", "Daily data limit exceeded on credentials"),
        ("???", "Could not to Campnet!", "There was an issue with the login attempt"),
    ];
    for (reply, title, body) in cases {
        let p = finish(connect_step(ConnectEvent::LoginAnswered { reply: Some(reply.to_string()) }, NotificationState::Under50));
        let n = p.notice.unwrap();
        assert_eq!(n.title, title);
        assert_eq!(n.body.as_deref(), Some(body));
        assert_eq!(p.icon, Some(TrayIcon::Inactive));
        assert!(p.retry_after_ms.is_none());
        assert_eq!(p.pause_secs, 0);
    }
    assert_eq!(login_plan(LoginOutcome::LoggedIn, NotificationState::Used90).icon, Some(TrayIcon::Used90));
}

fn page() -> String {
    let mut row = String::new();
    for (i, u) in ["a", "b", "c", "d", "e", "f", "MB", "MB", "KB", "MB", "GB"].iter().enumerate() {
        row.push_str(&format!("<td class=\"tabletext\">{}.5&nbsp;<i class=\"u.{}\"></i></td>", i, u));
    }
    format!("<div id=\"content3\"><table><tr>{}</tr></table></div>", row)
}

#[test]
fn traffic_loop_full_run() {
    let mut s = TrafficSession::new();
    assert!(matches!(traffic_step(&mut s, TrafficEvent::Started { initial_run: false }), TrafficAction::ProbeCampnet));
    assert!(matches!(traffic_step(&mut s, TrafficEvent::CampnetProbed { reachable: true }), TrafficAction::SignIn));
    let a = traffic_step(&mut s, TrafficEvent::PortalSignedIn { set_cookie: Some("SID=42; Path=/".to_string()) });
    assert!(matches!(a, TrafficAction::FetchCsrfPage));
    assert_eq!(s.cookie, "SID=42");
    let a = traffic_step(&mut s, TrafficEvent::CsrfPageAnswered { page: Some("var k3n = 'T0K';".to_string()) });
    assert!(matches!(a, TrafficAction::FetchAccountPage));
    assert_eq!(s.csrf, "T0K");
    match traffic_step(&mut s, TrafficEvent::AccountPageAnswered { page: Some(page()) }) {
        TrafficAction::Measure { cells, units } => {
            assert_eq!(cells.len(), 11);
            assert_eq!(cells[9].figure, "9.5");
            assert_eq!(units.current, "KB");
            assert_eq!(units.remaining, "GB");
        }
        _ => panic!("expected a measurement"),
    }
    match traffic_step(&mut s, TrafficEvent::UsageMeasured { state: NotificationState::Used90 }) {
        TrafficAction::Finish { notice, next_run_after_secs, pause_secs } => {
            assert_eq!(notice.unwrap().title, "90% data warning!");
            assert_eq!((next_run_after_secs, pause_secs), (45, 55));
        }
        _ => panic!("expected the run to end"),
    }
    assert_eq!(s.last_notification, NotificationState::Used90);
    match traffic_step(&mut s, TrafficEvent::UsageMeasured { state: NotificationState::Used90 }) {
        TrafficAction::Finish { notice, .. } => assert!(notice.is_none()),
        _ => panic!("expected the run to end"),
    }
}

#[test]
fn traffic_loop_failures_reschedule() {
    let mut s = TrafficSession::new();
    for e in [
        TrafficEvent::CampnetProbed { reachable: false },
        TrafficEvent::PortalSignedIn { set_cookie: None },
        TrafficEvent::CsrfPageAnswered { page: None },
        TrafficEvent::CsrfPageAnswered { page: Some("no token here".to_string()) },
        TrafficEvent::AccountPageAnswered { page: None },
    ] {
        match traffic_step(&mut s, e) {
            TrafficAction::Finish { notice, next_run_after_secs, pause_secs } => {
                assert!(notice.is_none());
                assert_eq!((next_run_after_secs, pause_secs), (45, 55));
            }
            _ => panic!("expected the run to end"),
        }
    }
    assert_eq!(s.cookie, "");
    assert_eq!(s.csrf, "");
    match traffic_step(&mut s, TrafficEvent::Started { initial_run: true }) {
        TrafficAction::Finish { notice, next_run_after_secs, pause_secs } => {
            assert!(notice.is_none());
            assert_eq!((next_run_after_secs, pause_secs), (0, 1));
        }
        _ => panic!("expected the run to end"),
    }
}

#[test]
fn traffic_loop_bad_pages() {
    let mut s = TrafficSession::new();
    assert!(matches!(
        traffic_step(&mut s, TrafficEvent::AccountPageAnswered { page: Some("<p>down</p>".to_string()) }),
        TrafficAction::Unreadable { .. }
    ));
    let short = "<div id=\"content3\"><td class=\"tabletext\">1&nbsp;<i class=\"u.MB\"></i></td></div>";
    assert!(matches!(
        traffic_step(&mut s, TrafficEvent::AccountPageAnswered { page: Some(short.to_string()) }),
        TrafficAction::Incomplete { count: 1 }
    ));
}
