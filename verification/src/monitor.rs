//! The traffic loop: sign in to the user portal, fetch the CSRF token, fetch the
//! account page, read its traffic table, and warn as the daily allowance runs out.
//!
//! The caller performs each action and reports what came of it as the next event;
//! `traffic_step` decides the action that follows and keeps the session's cookie,
//! token and last measured usage.
use vstd::prelude::*;
use crate::data::{Notice, NotificationState, TrafficUnits, notice_view, opt_view};
use crate::portal::{cookie_from_set_cookie, csrf_pattern, read_csrf, regex_whole_match};
use crate::text::field;
use crate::traffic::{
    TableOutcome, TrafficCell, parser_gave, TrafficPageError, cell_view, cells_result_view, read_traffic_page,
    spec_read_table, traffic_units, usage_transition, usage_warning,
};

verus! {

/// What the traffic loop remembers between steps and runs.
pub struct TrafficSession {
    /// The user portal's session cookie.
    pub cookie: String,
    /// The CSRF token of the account pages.
    pub csrf: String,
    /// The usage measured last.
    pub last_notification: NotificationState,
}

impl TrafficSession {
    /// A session with no cookie, no token, and less than half of the allowance used.
    pub fn new() -> (s: TrafficSession)
        ensures
            s.cookie@ == Seq::<char>::empty(),
            s.csrf@ == Seq::<char>::empty(),
            s.last_notification == NotificationState::Under50,
    {
        TrafficSession {
            cookie: String::new(),
            csrf: String::new(),
            last_notification: NotificationState::Under50,
        }
    }
}

/// What the caller reports to the traffic loop.
pub enum TrafficEvent {
    /// A run of the loop starts; the first run only schedules the next one.
    Started { initial_run: bool },
    /// The login endpoint answered a probe, or did not.
    CampnetProbed { reachable: bool },
    /// The sign-in to the user portal was answered with this `Set-Cookie` header,
    /// or `None` where the request failed.
    PortalSignedIn { set_cookie: Option<String> },
    /// The page with the CSRF token, or `None` where the request failed.
    CsrfPageAnswered { page: Option<String> },
    /// The account status page, or `None` where the request failed.
    AccountPageAnswered { page: Option<String> },
    /// The used share of the allowance, measured from the figures of the last `Measure`.
    UsageMeasured { state: NotificationState },
}

/// What the traffic loop asks the caller to do next.
pub enum TrafficAction {
    /// Forget the scheduled run and probe the login endpoint.
    ProbeCampnet,
    /// Sign in to the user portal.
    SignIn,
    /// Fetch the page with the CSRF token, sending the session's cookie.
    FetchCsrfPage,
    /// Fetch the account status page, sending the session's cookie and token.
    FetchAccountPage,
    /// Take the figures of these cells as the new traffic figures and these units as
    /// their units, measure the used share, and report it.
    Measure { cells: Vec<TrafficCell>, units: TrafficUnits },
    /// The account page could not be read.
    Unreadable { error: TrafficPageError },
    /// The traffic table has fewer than the eleven cells it should have.
    Incomplete { count: usize },
    /// Show the notice, if any; run again after this many seconds, and pause this
    /// many seconds before returning. The run is over.
    Finish { notice: Option<Notice>, next_run_after_secs: u64, pause_secs: u64 },
}

/// Units as plain sequences: total, last, current, used, remaining.
pub open spec fn units_view(u: TrafficUnits) -> (Seq<char>, Seq<char>, Seq<char>, Seq<char>, Seq<char>) {
    (u.total@, u.last@, u.current@, u.used@, u.remaining@)
}

/// An event as plain values, for contracts.
pub enum TrafficEventView {
    Started { initial_run: bool },
    CampnetProbed { reachable: bool },
    PortalSignedIn { set_cookie: Option<Seq<char>> },
    CsrfPageAnswered { page: Option<Seq<char>> },
    AccountPageAnswered { page: Option<Seq<char>> },
    UsageMeasured { state: NotificationState },
}

pub open spec fn traffic_event_view(e: TrafficEvent) -> TrafficEventView {
    match e {
        TrafficEvent::Started { initial_run } => TrafficEventView::Started { initial_run },
        TrafficEvent::CampnetProbed { reachable } => TrafficEventView::CampnetProbed { reachable },
        TrafficEvent::PortalSignedIn { set_cookie } => TrafficEventView::PortalSignedIn {
            set_cookie: opt_view(set_cookie),
        },
        TrafficEvent::CsrfPageAnswered { page } => TrafficEventView::CsrfPageAnswered { page: opt_view(page) },
        TrafficEvent::AccountPageAnswered { page } => TrafficEventView::AccountPageAnswered {
            page: opt_view(page),
        },
        TrafficEvent::UsageMeasured { state } => TrafficEventView::UsageMeasured { state },
    }
}

/// An action as plain values, for contracts.
pub enum TrafficActionView {
    ProbeCampnet,
    SignIn,
    FetchCsrfPage,
    FetchAccountPage,
    Measure {
        cells: Seq<(Seq<char>, Seq<char>)>,
        units: (Seq<char>, Seq<char>, Seq<char>, Seq<char>, Seq<char>),
    },
    Unreadable { error: TrafficPageError },
    Incomplete { count: usize },
    Finish { notice: Option<(Seq<char>, Option<Seq<char>>)>, next_run_after_secs: u64, pause_secs: u64 },
}

pub open spec fn traffic_action_view(a: TrafficAction) -> TrafficActionView {
    match a {
        TrafficAction::ProbeCampnet => TrafficActionView::ProbeCampnet,
        TrafficAction::SignIn => TrafficActionView::SignIn,
        TrafficAction::FetchCsrfPage => TrafficActionView::FetchCsrfPage,
        TrafficAction::FetchAccountPage => TrafficActionView::FetchAccountPage,
        TrafficAction::Measure { cells, units } => TrafficActionView::Measure {
            cells: cells@.map_values(|c: TrafficCell| cell_view(c)),
            units: units_view(units),
        },
        TrafficAction::Unreadable { error } => TrafficActionView::Unreadable { error },
        TrafficAction::Incomplete { count } => TrafficActionView::Incomplete { count },
        TrafficAction::Finish { notice, next_run_after_secs, pause_secs } => TrafficActionView::Finish {
            notice: match notice {
                Some(n) => Some(notice_view(n)),
                None => None,
            },
            next_run_after_secs,
            pause_secs,
        },
    }
}

/// The delay before the next run of the traffic loop, in seconds.
pub open spec fn next_run_secs() -> u64 {
    45
}

/// The pause at the end of a run of the traffic loop, in seconds.
pub open spec fn run_pause_secs() -> u64 {
    55
}

/// The end of a run that found nothing to report.
pub open spec fn plain_finish() -> TrafficActionView {
    TrafficActionView::Finish { notice: None, next_run_after_secs: next_run_secs(), pause_secs: run_pause_secs() }
}

/// The units of cells 6 to 10 of a read table.
pub open spec fn units_of_cells(cells: Seq<(Seq<char>, Seq<char>)>) -> (Seq<char>, Seq<char>, Seq<char>, Seq<char>, Seq<char>) {
    (cells[6].1, cells[7].1, cells[8].1, cells[9].1, cells[10].1)
}

/// A session as plain values: cookie, token, last usage.
pub open spec fn session_view(s: TrafficSession) -> (Seq<char>, Seq<char>, NotificationState) {
    (s.cookie@, s.csrf@, s.last_notification)
}

/// The session and action that follow `event` in `session`, where an account page
/// is read into what the HTML parser gave for it, `out`.
pub open spec fn spec_traffic_step(
    session: (Seq<char>, Seq<char>, NotificationState),
    event: TrafficEventView,
    out: TableOutcome,
) -> ((Seq<char>, Seq<char>, NotificationState), TrafficActionView) {
    let (cookie, csrf, last) = session;
    match event {
        TrafficEventView::Started { initial_run } => if initial_run {
            (session, TrafficActionView::Finish { notice: None, next_run_after_secs: 0, pause_secs: 1 })
        } else {
            (session, TrafficActionView::ProbeCampnet)
        },
        TrafficEventView::CampnetProbed { reachable } => if reachable {
            (session, TrafficActionView::SignIn)
        } else {
            (session, plain_finish())
        },
        TrafficEventView::PortalSignedIn { set_cookie } => match set_cookie {
            Some(h) => ((field(h, ';', 0)->0, csrf, last), TrafficActionView::FetchCsrfPage),
            None => (session, plain_finish()),
        },
        TrafficEventView::CsrfPageAnswered { page } => match page {
            Some(p) => match regex_whole_match(csrf_pattern(), p) {
                Some(m) => match field(m, '\'', 1) {
                    Some(t) => ((cookie, t, last), TrafficActionView::FetchAccountPage),
                    None => (session, plain_finish()),
                },
                None => (session, plain_finish()),
            },
            None => (session, plain_finish()),
        },
        TrafficEventView::AccountPageAnswered { page } => match page {
            Some(_) => match spec_read_table(out) {
                Ok(cells) => if cells.len() >= 11 {
                    (session, TrafficActionView::Measure { cells, units: units_of_cells(cells) })
                } else {
                    (session, TrafficActionView::Incomplete { count: cells.len() as usize })
                },
                Err(e) => (session, TrafficActionView::Unreadable { error: e }),
            },
            None => (session, plain_finish()),
        },
        TrafficEventView::UsageMeasured { state } => (
            (cookie, csrf, state),
            TrafficActionView::Finish {
                notice: if last != state { usage_warning(state) } else { None },
                next_run_after_secs: next_run_secs(),
                pause_secs: run_pause_secs(),
            },
        ),
    }
}

fn finish_plain() -> (a: TrafficAction)
    ensures
        traffic_action_view(a) == plain_finish(),
{
    TrafficAction::Finish { notice: None, next_run_after_secs: 45, pause_secs: 55 }
}

/// Whether `out` is something the HTML parser may give for the page that `event`
/// carries; any outcome where the event carries no account page.
pub open spec fn parser_gave_for(event: TrafficEventView, out: TableOutcome) -> bool {
    match event {
        TrafficEventView::AccountPageAnswered { page: Some(p) } => parser_gave(p, out),
        _ => true,
    }
}

/// One step of the traffic loop: updates the session and returns the action that
/// follows `event`. For an account page, the step is that of `spec_traffic_step`
/// for something the HTML parser may give for that page; which of those is not stated.
pub fn traffic_step(session: &mut TrafficSession, event: TrafficEvent) -> (a: TrafficAction)
    ensures
        exists|out: TableOutcome|
            (session_view(*final(session)), traffic_action_view(a)) == #[trigger] spec_traffic_step(
                session_view(*old(session)),
                traffic_event_view(event),
                out,
            ) && parser_gave_for(traffic_event_view(event), out),
{
    let ghost old_view = session_view(*session);
    let ghost ev = traffic_event_view(event);
    let ghost mut witness = TableOutcome::NoTable;
    let a = match event {
        TrafficEvent::Started { initial_run } => {
            if initial_run {
                TrafficAction::Finish { notice: None, next_run_after_secs: 0, pause_secs: 1 }
            } else {
                TrafficAction::ProbeCampnet
            }
        },
        TrafficEvent::CampnetProbed { reachable } => {
            if reachable {
                TrafficAction::SignIn
            } else {
                finish_plain()
            }
        },
        TrafficEvent::PortalSignedIn { set_cookie } => {
            match set_cookie {
                Some(h) => {
                    session.cookie = cookie_from_set_cookie(h.as_str());
                    TrafficAction::FetchCsrfPage
                },
                None => finish_plain(),
            }
        },
        TrafficEvent::CsrfPageAnswered { page } => {
            match page {
                Some(p) => {
                    match read_csrf(p.as_str()) {
                        Some(t) => {
                            session.csrf = t;
                            TrafficAction::FetchAccountPage
                        },
                        None => finish_plain(),
                    }
                },
                None => finish_plain(),
            }
        },
        TrafficEvent::AccountPageAnswered { page } => {
            match page {
                Some(p) => {
                    let r = read_traffic_page(p.as_str());
                    proof {
                        witness = choose|out: TableOutcome|
                            cells_result_view(r) == #[trigger] spec_read_table(out) && parser_gave(p@, out);
                    }
                    match r {
                        Ok(cells) => {
                            if cells.len() >= 11 {
                                let units = traffic_units(&cells);
                                TrafficAction::Measure { cells, units }
                            } else {
                                TrafficAction::Incomplete { count: cells.len() }
                            }
                        },
                        Err(e) => TrafficAction::Unreadable { error: e },
                    }
                },
                None => finish_plain(),
            }
        },
        TrafficEvent::UsageMeasured { state } => {
            let (next, warning) = usage_transition(session.last_notification, state);
            session.last_notification = next;
            TrafficAction::Finish { notice: warning, next_run_after_secs: 45, pause_secs: 55 }
        },
    };
    proof {
        assert((session_view(*session), traffic_action_view(a)) == spec_traffic_step(old_view, ev, witness));
        assert(parser_gave_for(ev, witness));
    }
    a
}

} // verus!
