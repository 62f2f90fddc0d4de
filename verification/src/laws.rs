//! Properties that hold across the library's operations and steps.
use vstd::prelude::*;
use crate::data::NotificationState;
use crate::connect::{
    ConnectActionView, ConnectEventView, spec_connect_step, recheck_ms,
};
use crate::monitor::{
    TrafficActionView, TrafficEventView, spec_traffic_step, next_run_secs, run_pause_secs,
    units_of_cells,
};
use crate::portal::{LoginOutcome, spec_credential_check, spec_login_outcome};
use crate::text::{field, sep_len, has_substring, remove_all, trimmed, lemma_sep_len, decimal, digit_char};
use crate::traffic::{TableOutcome, read_raw, read_cell};
use crate::portal::login_form;
use crate::tray::TrayIcon;

verus! {

proof fn lemma_sep_len_prefix(s: Seq<char>, sep: char)
    ensures
        sep_len(s, sep) <= s.len(),
        forall|j: int| 0 <= j < sep_len(s, sep) ==> s[j] != sep,
    decreases s.len(),
{
    if s.len() > 0 && s[0] != sep {
        lemma_sep_len_prefix(s.drop_first(), sep);
        assert forall|j: int| 0 <= j < sep_len(s, sep) implies s[j] != sep by {
            if j > 0 {
                assert(s[j] == s.drop_first()[j - 1]);
            }
        }
    }
}

/// The first field of a text cut at `sep` holds no `sep` and is where the text starts.
pub proof fn law_first_field_is_clean_prefix(s: Seq<char>, sep: char)
    ensures
        field(s, sep, 0) is Some,
        !field(s, sep, 0)->0.contains(sep),
        s.take(field(s, sep, 0)->0.len() as int) == field(s, sep, 0)->0,
{
    lemma_sep_len_prefix(s, sep);
    let f = field(s, sep, 0)->0;
    assert(f == s.take(sep_len(s, sep) as int));
    assert forall|j: int| 0 <= j < f.len() implies f[j] != sep by {
        assert(f[j] == s[j]);
    }
}

/// A login reply that the login loop takes for a live session also passes the
/// check of new credentials.
pub proof fn law_live_reply_passes_check(reply: Seq<char>)
    requires
        spec_login_outcome(reply) == LoginOutcome::LoggedIn,
    ensures
        spec_credential_check(true, Some(reply)) == Ok::<(), Seq<char>>(()),
{
}

/// A login reply that the login loop reads as a used-up allowance passes the
/// check of new credentials: the credentials themselves are good.
pub proof fn law_exceeded_reply_passes_check(reply: Seq<char>)
    requires
        spec_login_outcome(reply) == LoginOutcome::LimitExceeded,
    ensures
        spec_credential_check(true, Some(reply)) == Ok::<(), Seq<char>>(()),
{
}

/// A login reply that the check of new credentials refuses as invalid is one that
/// the login loop reads as refused credentials.
pub proof fn law_invalid_check_means_refused(reply: Seq<char>)
    requires
        spec_credential_check(true, Some(reply)) == Err::<(), Seq<char>>("INVALIDCRED"@),
    ensures
        spec_login_outcome(reply) == LoginOutcome::IncorrectCredentials,
{
    reveal_strlit("INVALIDCRED");
    reveal_strlit("UNKNOWN");
    assert("INVALIDCRED"@[0] != "UNKNOWN"@[0]);
}

/// The login loop schedules another run only when the network is already up, a
/// login went through, or the loop is starting.
pub proof fn law_connect_retries_only_when_live(event: ConnectEventView, last: NotificationState)
    ensures
        spec_connect_step(event, last) matches ConnectActionView::Finish(plan) ==> (plan.2 is Some <==> (
            event == ConnectEventView::Started { initial_run: true }
            || event == ConnectEventView::InternetProbed { reachable: true }
            || (event matches ConnectEventView::LoginAnswered { reply: Some(r) }
                && spec_login_outcome(r) == LoginOutcome::LoggedIn))),
{
}

/// A login that did not go through leaves the tray showing the inactive icon, and
/// one that did never does.
pub proof fn law_refused_login_goes_inactive(reply: Seq<char>, last: NotificationState)
    ensures
        spec_connect_step(ConnectEventView::LoginAnswered { reply: Some(reply) }, last) matches ConnectActionView::Finish(plan)
            && (plan.1 == Some(TrayIcon::Inactive) <==> spec_login_outcome(reply) != LoginOutcome::LoggedIn),
{
}

/// Every run of the traffic loop after the first ends with the next run scheduled
/// and the usual pause, whatever went wrong on the way and whatever the HTML parser gave.
pub proof fn law_traffic_always_reschedules(
    session: (Seq<char>, Seq<char>, NotificationState),
    event: TrafficEventView,
    out: TableOutcome,
)
    requires
        !(event matches TrafficEventView::Started { initial_run: true }),
    ensures
        spec_traffic_step(session, event, out).1 matches TrafficActionView::Finish {
            next_run_after_secs,
            pause_secs,
            ..
        } ==> next_run_after_secs == next_run_secs() && pause_secs == run_pause_secs(),
{
}

/// The traffic loop measures only a table of at least eleven cells that were all
/// read from the cells the HTML parser gave, and takes its units from cells 6 to 10.
pub proof fn law_measure_only_read_tables(
    session: (Seq<char>, Seq<char>, NotificationState),
    event: TrafficEventView,
    out: TableOutcome,
)
    ensures
        spec_traffic_step(session, event, out).1 matches TrafficActionView::Measure { cells, units }
            ==> (cells.len() >= 11 && units == units_of_cells(cells) && (out matches TableOutcome::Cells { raw, .. }
            && read_raw(raw) == Ok::<Seq<(Seq<char>, Seq<char>)>, usize>(cells))),
{
}

/// Only a sign-in changes the session's cookie, only a token page changes its
/// token, and only a measurement changes the last usage.
pub proof fn law_traffic_session_frame(
    session: (Seq<char>, Seq<char>, NotificationState),
    event: TrafficEventView,
    out: TableOutcome,
)
    ensures
        !(event is PortalSignedIn) ==> spec_traffic_step(session, event, out).0.0 == session.0,
        !(event is CsrfPageAnswered) ==> spec_traffic_step(session, event, out).0.1 == session.1,
        !(event is UsageMeasured) ==> spec_traffic_step(session, event, out).0.2 == session.2,
{
}

/// A measurement becomes the last usage, and the same measurement reported again
/// raises no second warning.
pub proof fn law_warning_raised_once(
    session: (Seq<char>, Seq<char>, NotificationState),
    state: NotificationState,
    out1: TableOutcome,
    out2: TableOutcome,
)
    ensures
        ({
            let first = spec_traffic_step(session, TrafficEventView::UsageMeasured { state }, out1);
            let second = spec_traffic_step(first.0, TrafficEventView::UsageMeasured { state }, out2);
            &&& first.0.2 == state
            &&& second.1 matches TrafficActionView::Finish { notice, .. } && notice is None
        }),
{
}

/// A login reply that says `LIVE` ends the run by showing, in the tray, the icon of
/// the last measured usage: the active icon under half, the half-used icon from
/// half, the nine-tenths icon from nine tenths; a used-up allowance leaves the icon
/// as it is. The run is then checked again in 2.5 s after a 3 s pause.
pub proof fn law_live_login_shows_usage_icon(reply: Seq<char>, last: NotificationState)
    requires
        has_substring(reply, "LIVE"@),
    ensures
        spec_connect_step(ConnectEventView::LoginAnswered { reply: Some(reply) }, last) matches ConnectActionView::Finish(plan)
            && plan.1 == (match last {
                NotificationState::Under50 => Some(TrayIcon::Active),
                NotificationState::Used50 => Some(TrayIcon::Used50),
                NotificationState::Used90 => Some(TrayIcon::Used90),
                NotificationState::Used100 => None::<TrayIcon>,
            })
            && plan.0 == Some(("Connected to Campnet!"@, Some("Logged in successfully to BPGC network"@)))
            && plan.2 == Some(2500u64) && plan.3 == 3,
{
}

/// A measured usage that differs from the last one raises the warning of the new
/// state whatever the last state was: half used warns of half, nine tenths warns of
/// nine tenths, under half or all used warns of nothing. The new state is kept.
pub proof fn law_changed_usage_warns_of_new_state(
    session: (Seq<char>, Seq<char>, NotificationState),
    state: NotificationState,
    out: TableOutcome,
)
    requires
        session.2 != state,
    ensures
        ({
            let step = spec_traffic_step(session, TrafficEventView::UsageMeasured { state }, out);
            &&& step.0 == (session.0, session.1, state)
            &&& step.1 matches TrafficActionView::Finish { notice, next_run_after_secs, pause_secs }
                && next_run_after_secs == 45 && pause_secs == 55
                && notice == (match state {
                    NotificationState::Used50 => Some(("50% data warning!"@, Some("Consider slowing down"@))),
                    NotificationState::Used90 => Some(("90% data warning!"@, Some("Tread the interwebs slowly"@))),
                    _ => None::<(Seq<char>, Option<Seq<char>>)>,
                })
        }),
{
}

/// The check of new credentials, over every logout result and login reply: a failed
/// logout means the portal is not there; a failed login request is unknown; a reply
/// with `LIVE` or `exceeded` accepts the credentials; otherwise a reply with `failed`
/// refuses them as invalid, and anything else is unknown.
pub proof fn law_credential_check_answers(logout_ok: bool, reply: Seq<char>)
    ensures
        spec_credential_check(false, None) == Err::<(), Seq<char>>("NOSOPHOS"@),
        spec_credential_check(false, Some(reply)) == Err::<(), Seq<char>>("NOSOPHOS"@),
        spec_credential_check(true, None) == Err::<(), Seq<char>>("UNKNOWN"@),
        has_substring(reply, "LIVE"@) || has_substring(reply, "exceeded"@) ==> spec_credential_check(
            true,
            Some(reply),
        ) == Ok::<(), Seq<char>>(()),
        !has_substring(reply, "LIVE"@) && !has_substring(reply, "exceeded"@) && has_substring(reply, "failed"@)
            ==> spec_credential_check(true, Some(reply)) == Err::<(), Seq<char>>("INVALIDCRED"@),
        !has_substring(reply, "LIVE"@) && !has_substring(reply, "exceeded"@) && !has_substring(
            reply,
            "failed"@,
        ) ==> spec_credential_check(true, Some(reply)) == Err::<(), Seq<char>>("UNKNOWN"@),
{
}

/// A raw cell whose second descendant's HTML holds a unit is read, whatever other
/// descendants follow: its figure is its trimmed inner text without `&nbsp;`, its
/// unit the text after the first `.` of that HTML up to the next `.` or `"`.
pub proof fn law_cell_with_unit_is_read(text: Seq<char>, ds: Seq<Seq<char>>, after_dot: Seq<char>)
    requires
        ds.len() > 1,
        field(ds[1], '.', 1) == Some(after_dot),
    ensures
        read_cell((text, Some(ds))) == Some((remove_all(trimmed(text), "&nbsp;"@), field(after_dot, '"', 0)->0)),
        read_cell((text, Some(ds))) == read_cell((text, Some(ds.take(2)))),
{
    assert(ds.take(2)[1] == ds[1]);
}

proof fn lemma_field_after_sep(a: Seq<char>, sep: char, b: Seq<char>, n: nat)
    requires
        !a.contains(sep),
    ensures
        field(a + seq![sep] + b, sep, 0) == Some(a),
        field(a + seq![sep] + b, sep, n + 1) == field(b, sep, n),
{
    let s = a + seq![sep] + b;
    assert forall|j: int| 0 <= j < a.len() implies s[j] != sep by {
        assert(s[j] == a[j]);
        if a[j] == sep {
            assert(a.contains(sep));
        }
    }
    assert(s[a.len() as int] == sep);
    lemma_sep_len(s, sep, a.len() as int);
    assert(s.take(a.len() as int) =~= a);
    assert(s.skip(a.len() + 1int) =~= b);
}

proof fn lemma_field_whole(a: Seq<char>, sep: char)
    requires
        !a.contains(sep),
    ensures
        field(a, sep, 0) == Some(a),
        field(a, sep, 1) is None,
{
    assert forall|j: int| 0 <= j < a.len() implies a[j] != sep by {
        if a[j] == sep {
            assert(a.contains(sep));
        }
    }
    lemma_sep_len(a, sep, a.len() as int);
    assert(a.take(a.len() as int) =~= a);
}

proof fn lemma_no_sep_concat(a: Seq<char>, b: Seq<char>, sep: char)
    requires
        !a.contains(sep),
        !b.contains(sep),
    ensures
        !(a + b).contains(sep),
{
    if (a + b).contains(sep) {
        let j = choose|j: int| 0 <= j < (a + b).len() && (a + b)[j] == sep;
        if j < a.len() {
            assert(a[j] == sep);
            assert(a.contains(sep));
        } else {
            assert(b[j - a.len()] == sep);
            assert(b.contains(sep));
        }
    }
}

proof fn lemma_decimal_has_no(n: nat, c: char)
    requires
        !('0' <= c <= '9'),
    ensures
        !decimal(n).contains(c),
    decreases n,
{
    let d = digit_char(n % 10);
    assert('0' <= d <= '9');
    if n < 10 {
        assert(decimal(n) =~= seq![digit_char(n)]);
        if decimal(n).contains(c) {
            assert(decimal(n)[0] == c);
        }
    } else {
        lemma_decimal_has_no(n / 10, c);
        if seq![d].contains(c) {
            assert(seq![d][0] == c);
        }
        lemma_no_sep_concat(decimal(n / 10), seq![d], c);
    }
}

/// The login form cuts at `&` into its fields, each carried whole: the mode, the
/// username, the password, the time stamp and the product type, and nothing after;
/// for a username and a password that hold no `&` themselves.
pub proof fn law_login_form_fields(user: Seq<char>, password: Seq<char>, millis: nat)
    requires
        !user.contains('&'),
        !password.contains('&'),
    ensures
        field(login_form(user, password, millis), '&', 0) == Some("mode=191"@),
        field(login_form(user, password, millis), '&', 1) == Some("username="@ + user),
        field(login_form(user, password, millis), '&', 2) == Some("password="@ + password),
        field(login_form(user, password, millis), '&', 3) == Some("a="@ + decimal(millis)),
        field(login_form(user, password, millis), '&', 4) == Some("producttype=1"@),
        field(login_form(user, password, millis), '&', 5) is None,
{
    reveal_strlit("mode=191&username=");
    reveal_strlit("&password=");
    reveal_strlit("&a=");
    reveal_strlit("&producttype=1");
    reveal_strlit("mode=191");
    reveal_strlit("username=");
    reveal_strlit("password=");
    reveal_strlit("a=");
    reveal_strlit("producttype=1");
    let f0 = "mode=191"@;
    let f1 = "username="@ + user;
    let f2 = "password="@ + password;
    let f3 = "a="@ + decimal(millis);
    let f4 = "producttype=1"@;
    let amp = seq!['&'];
    let t4 = f4;
    let t3 = f3 + amp + t4;
    let t2 = f2 + amp + t3;
    let t1 = f1 + amp + t2;
    let t0 = f0 + amp + t1;
    assert(login_form(user, password, millis) =~= t0);
    assert(!f0.contains('&')) by {
        if f0.contains('&') {
            let j = choose|j: int| 0 <= j < f0.len() && f0[j] == '&';
        }
    }
    assert(!f4.contains('&')) by {
        if f4.contains('&') {
            let j = choose|j: int| 0 <= j < f4.len() && f4[j] == '&';
        }
    }
    assert(!"username="@.contains('&')) by {
        if "username="@.contains('&') {
            let j = choose|j: int| 0 <= j < "username="@.len() && "username="@[j] == '&';
        }
    }
    assert(!"password="@.contains('&')) by {
        if "password="@.contains('&') {
            let j = choose|j: int| 0 <= j < "password="@.len() && "password="@[j] == '&';
        }
    }
    assert(!"a="@.contains('&')) by {
        if "a="@.contains('&') {
            let j = choose|j: int| 0 <= j < "a="@.len() && "a="@[j] == '&';
        }
    }
    lemma_no_sep_concat("username="@, user, '&');
    lemma_no_sep_concat("password="@, password, '&');
    lemma_decimal_has_no(millis, '&');
    lemma_no_sep_concat("a="@, decimal(millis), '&');
    lemma_field_after_sep(f0, '&', t1, 0);
    lemma_field_after_sep(f0, '&', t1, 1);
    lemma_field_after_sep(f0, '&', t1, 2);
    lemma_field_after_sep(f0, '&', t1, 3);
    lemma_field_after_sep(f0, '&', t1, 4);
    lemma_field_after_sep(f1, '&', t2, 0);
    lemma_field_after_sep(f1, '&', t2, 1);
    lemma_field_after_sep(f1, '&', t2, 2);
    lemma_field_after_sep(f1, '&', t2, 3);
    lemma_field_after_sep(f2, '&', t3, 0);
    lemma_field_after_sep(f2, '&', t3, 1);
    lemma_field_after_sep(f2, '&', t3, 2);
    lemma_field_after_sep(f3, '&', t4, 0);
    lemma_field_after_sep(f3, '&', t4, 1);
    lemma_field_whole(f4, '&');
}

} // verus!
