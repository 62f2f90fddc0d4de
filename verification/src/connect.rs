//! The login loop: probe the campus network, probe the internet, log in, and
//! decide what to notify, which icon to show and when to look again.
//!
//! The caller performs each action and reports what came of it as the next event;
//! `connect_step` decides the action that follows.
use vstd::prelude::*;
use crate::data::{Notice, NotificationState, notice, notice_view, opt_view};
use crate::portal::{LoginOutcome, login_outcome, spec_login_outcome};
use crate::tray::{TrayIcon, icon_for_usage, spec_icon_for_usage};

verus! {

/// What the caller reports to the login loop.
pub enum ConnectEvent {
    /// A run of the loop starts; the first run only schedules the next one.
    Started { initial_run: bool },
    /// The login endpoint answered a probe, or did not.
    CampnetProbed { reachable: bool },
    /// The internet answered a probe, or did not.
    InternetProbed { reachable: bool },
    /// The login form was posted: the reply's text, or `None` where the request failed.
    LoginAnswered { reply: Option<String> },
}

/// How a run of the login loop ends: what to notify, which icon to show, when to
/// run again (in milliseconds, `None` for not on its own) and how long to pause
/// (in seconds) before returning.
pub struct ConnectPlan {
    pub notice: Option<Notice>,
    pub icon: Option<TrayIcon>,
    pub retry_after_ms: Option<u64>,
    pub pause_secs: u64,
}

/// What the login loop asks the caller to do next.
pub enum ConnectAction {
    /// Forget the scheduled run and probe the login endpoint.
    ProbeCampnet,
    /// Probe the internet.
    ProbeInternet,
    /// Post the login form.
    SendLogin,
    /// Carry out the plan; the run is over.
    Finish(ConnectPlan),
}

/// An event as plain values, for contracts.
pub enum ConnectEventView {
    Started { initial_run: bool },
    CampnetProbed { reachable: bool },
    InternetProbed { reachable: bool },
    LoginAnswered { reply: Option<Seq<char>> },
}

pub open spec fn connect_event_view(e: ConnectEvent) -> ConnectEventView {
    match e {
        ConnectEvent::Started { initial_run } => ConnectEventView::Started { initial_run },
        ConnectEvent::CampnetProbed { reachable } => ConnectEventView::CampnetProbed { reachable },
        ConnectEvent::InternetProbed { reachable } => ConnectEventView::InternetProbed { reachable },
        ConnectEvent::LoginAnswered { reply } => ConnectEventView::LoginAnswered { reply: opt_view(reply) },
    }
}

/// A plan as plain values: notice, icon, retry delay, pause.
pub type PlanView = (Option<(Seq<char>, Option<Seq<char>>)>, Option<TrayIcon>, Option<u64>, u64);

pub open spec fn plan_view(p: ConnectPlan) -> PlanView {
    (
        match p.notice {
            Some(n) => Some(notice_view(n)),
            None => None,
        },
        p.icon,
        p.retry_after_ms,
        p.pause_secs,
    )
}

/// An action as plain values, for contracts.
pub enum ConnectActionView {
    ProbeCampnet,
    ProbeInternet,
    SendLogin,
    Finish(PlanView),
}

pub open spec fn connect_action_view(a: ConnectAction) -> ConnectActionView {
    match a {
        ConnectAction::ProbeCampnet => ConnectActionView::ProbeCampnet,
        ConnectAction::ProbeInternet => ConnectActionView::ProbeInternet,
        ConnectAction::SendLogin => ConnectActionView::SendLogin,
        ConnectAction::Finish(p) => ConnectActionView::Finish(plan_view(p)),
    }
}

/// The delay before the next run while the session is up, in milliseconds.
pub open spec fn recheck_ms() -> u64 {
    2500
}

/// The pause after a run that keeps watch, in seconds.
pub open spec fn recheck_pause_secs() -> u64 {
    3
}

/// The plan after the portal's reply to the login form, given the last measured usage.
pub open spec fn spec_login_plan(outcome: LoginOutcome, last: NotificationState) -> PlanView {
    match outcome {
        LoginOutcome::LoggedIn => (
            Some(("Connected to Campnet!"@, Some("Logged in successfully to BPGC network"@))),
            spec_icon_for_usage(last),
            Some(recheck_ms()),
            recheck_pause_secs(),
        ),
        LoginOutcome::IncorrectCredentials => (
            Some(("Could not connect to Campnet!"@, Some("Incorrect credentials were provided"@))),
            Some(TrayIcon::Inactive),
            None,
            0,
        ),
        LoginOutcome::LimitExceeded => (
            Some(("Could not connect to Campnet!"@, Some("Daily data limit exceeded on credentials"@))),
            Some(TrayIcon::Inactive),
            None,
            0,
        ),
        LoginOutcome::Failed => (
            Some(("Could not to Campnet!"@, Some("There was an issue with the login attempt"@))),
            Some(TrayIcon::Inactive),
            None,
            0,
        ),
    }
}

/// A run that ends with nothing to show and nothing scheduled.
pub open spec fn quiet_end() -> PlanView {
    (None, None, None, 0)
}

/// The action that follows `event`, given the last measured usage.
pub open spec fn spec_connect_step(event: ConnectEventView, last: NotificationState) -> ConnectActionView {
    match event {
        ConnectEventView::Started { initial_run } => if initial_run {
            ConnectActionView::Finish((None, None, Some(0), 1))
        } else {
            ConnectActionView::ProbeCampnet
        },
        ConnectEventView::CampnetProbed { reachable } => if reachable {
            ConnectActionView::ProbeInternet
        } else {
            ConnectActionView::Finish(quiet_end())
        },
        ConnectEventView::InternetProbed { reachable } => if reachable {
            ConnectActionView::Finish((None, Some(TrayIcon::Active), Some(recheck_ms()), recheck_pause_secs()))
        } else {
            ConnectActionView::SendLogin
        },
        ConnectEventView::LoginAnswered { reply } => match reply {
            None => ConnectActionView::Finish(quiet_end()),
            Some(r) => ConnectActionView::Finish(spec_login_plan(spec_login_outcome(r), last)),
        },
    }
}

/// The plan after the portal's reply to the login form.
pub fn login_plan(outcome: LoginOutcome, last: NotificationState) -> (p: ConnectPlan)
    ensures
        plan_view(p) == spec_login_plan(outcome, last),
{
    match outcome {
        LoginOutcome::LoggedIn => ConnectPlan {
            notice: Some(notice("Connected to Campnet!", "Logged in successfully to BPGC network")),
            icon: icon_for_usage(last),
            retry_after_ms: Some(2500),
            pause_secs: 3,
        },
        LoginOutcome::IncorrectCredentials => ConnectPlan {
            notice: Some(notice("Could not connect to Campnet!", "Incorrect credentials were provided")),
            icon: Some(TrayIcon::Inactive),
            retry_after_ms: None,
            pause_secs: 0,
        },
        LoginOutcome::LimitExceeded => ConnectPlan {
            notice: Some(notice("Could not connect to Campnet!", "Daily data limit exceeded on credentials")),
            icon: Some(TrayIcon::Inactive),
            retry_after_ms: None,
            pause_secs: 0,
        },
        LoginOutcome::Failed => ConnectPlan {
            notice: Some(notice("Could not to Campnet!", "There was an issue with the login attempt")),
            icon: Some(TrayIcon::Inactive),
            retry_after_ms: None,
            pause_secs: 0,
        },
    }
}

fn quiet_plan() -> (p: ConnectPlan)
    ensures
        plan_view(p) == quiet_end(),
{
    ConnectPlan { notice: None, icon: None, retry_after_ms: None, pause_secs: 0 }
}

/// One step of the login loop: the action that follows `event`, given the last
/// measured usage of the daily allowance.
pub fn connect_step(event: ConnectEvent, last: NotificationState) -> (a: ConnectAction)
    ensures
        connect_action_view(a) == spec_connect_step(connect_event_view(event), last),
{
    match event {
        ConnectEvent::Started { initial_run } => {
            if initial_run {
                ConnectAction::Finish(
                    ConnectPlan { notice: None, icon: None, retry_after_ms: Some(0), pause_secs: 1 },
                )
            } else {
                ConnectAction::ProbeCampnet
            }
        },
        ConnectEvent::CampnetProbed { reachable } => {
            if reachable {
                ConnectAction::ProbeInternet
            } else {
                ConnectAction::Finish(quiet_plan())
            }
        },
        ConnectEvent::InternetProbed { reachable } => {
            if reachable {
                ConnectAction::Finish(
                    ConnectPlan {
                        notice: None,
                        icon: Some(TrayIcon::Active),
                        retry_after_ms: Some(2500),
                        pause_secs: 3,
                    },
                )
            } else {
                ConnectAction::SendLogin
            }
        },
        ConnectEvent::LoginAnswered { reply } => {
            match reply {
                None => ConnectAction::Finish(quiet_plan()),
                Some(r) => ConnectAction::Finish(login_plan(login_outcome(r.as_str()), last)),
            }
        },
    }
}

} // verus!
