//! The requests sent to the captive portal and the reading of its replies.
use vstd::prelude::*;
use crate::data::{Credentials, opt_view};
use crate::text::{
    decimal, decimal_string, field, has_substring, split_field, contains,
};

verus! {

// ---------------------------------------------------------------------------
// Requests
// ---------------------------------------------------------------------------

/// The HTTP method of a request.
#[derive(Clone, Copy, PartialEq, Eq, Structural, Debug)]
pub enum HttpMethod {
    Get,
    Post,
    Head,
}

/// A request as plain values: where it goes, its query pairs, its header pairs and its body.
pub struct HttpRequest {
    pub method: HttpMethod,
    pub url: String,
    pub query: Vec<(String, String)>,
    pub headers: Vec<(String, String)>,
    pub body: Option<String>,
}

/// The header that marks a form body.
pub open spec fn form_content_type() -> (Seq<char>, Seq<char>) {
    ("Content-Type"@, "application/x-www-form-urlencoded"@)
}

/// The body that logs `user` in, stamped with `millis`.
pub open spec fn login_form(user: Seq<char>, password: Seq<char>, millis: nat) -> Seq<char> {
    "mode=191&username="@ + user + "&password="@ + password + "&a="@ + decimal(millis)
        + "&producttype=1"@
}

/// The body that logs `user` out, stamped with `millis`.
pub open spec fn logout_form(user: Seq<char>, millis: nat) -> Seq<char> {
    "mode=193&username="@ + user + "&a="@ + decimal(millis) + "&producttype=1"@
}

/// The body that signs in to the user portal, which answers with a session cookie.
pub open spec fn portal_login_form(user: Seq<char>, password: Seq<char>, millis: nat) -> Seq<char> {
    "mode=451&json=%7B%22username%22%3A%22"@ + user + "%22%2C%22password%22%3A%22"@ + password
        + "%22%2C%22languageid%22%3A%221%22%2C%22browser%22%3A%22Chrome_109%22%7D&t="@
        + decimal(millis)
}

/// The user agent that the client names to the user portal.
pub open spec fn user_agent(version: Seq<char>) -> Seq<char> {
    "AutoCampnetRuntime/"@ + version
}

fn concat2(a: &str, b: &str) -> (r: String)
    ensures
        r@ == a@ + b@,
{
    let mut r = a.to_owned();
    r.append(b);
    r
}

fn pair(a: &str, b: &str) -> (r: (String, String))
    ensures
        r.0@ == a@,
        r.1@ == b@,
{
    (a.to_owned(), b.to_owned())
}

/// A request with no query and no body.
fn bare_request(method: HttpMethod, url: String) -> (r: HttpRequest)
    ensures
        r.method == method,
        r.url == url,
        r.query@.len() == 0,
        r.headers@.len() == 0,
        r.body is None,
{
    HttpRequest { method, url, query: Vec::new(), headers: Vec::new(), body: None }
}

/// A form post of `body` to `url` that names the body's length in characters.
fn counted_form_post(url: String, body: String) -> (r: HttpRequest)
    ensures
        r.method == HttpMethod::Post,
        r.url == url,
        r.query@.len() == 0,
        r.headers.deep_view() == seq![
            form_content_type(),
            ("Content-Length"@, decimal(body@.len())),
        ],
        opt_view(r.body) == Some(body@),
{
    let n: usize = body.as_str().unicode_len();
    let mut headers: Vec<(String, String)> = Vec::new();
    headers.push(pair("Content-Type", "application/x-www-form-urlencoded"));
    headers.push((String::from_str("Content-Length"), decimal_string(n as u128)));
    proof {
        assert(headers.deep_view() =~= seq![
            form_content_type(),
            ("Content-Length"@, decimal(body@.len())),
        ]);
    }
    HttpRequest { method: HttpMethod::Post, url, query: Vec::new(), headers, body: Some(body) }
}

/// The request that logs `creds` in at `login_endpoint`, stamped with `millis`.
pub fn login(creds: &Credentials, login_endpoint: &str, millis: u128) -> (r: HttpRequest)
    ensures
        r.method == HttpMethod::Post,
        r.url@ == login_endpoint@ + "/login.xml"@,
        r.query@.len() == 0,
        r.headers.deep_view() == seq![
            form_content_type(),
            ("Content-Length"@, decimal(login_form(creds.username@, creds.password@, millis as nat).len())),
        ],
        opt_view(r.body) == Some(login_form(creds.username@, creds.password@, millis as nat)),
{
    let mut body = String::from_str("mode=191&username=");
    body.append(creds.username.as_str());
    body.append("&password=");
    body.append(creds.password.as_str());
    body.append("&a=");
    let t = decimal_string(millis);
    body.append(t.as_str());
    body.append("&producttype=1");
    counted_form_post(concat2(login_endpoint, "/login.xml"), body)
}

/// The request that logs `creds` out at `login_endpoint`, stamped with `millis`.
pub fn logout(creds: &Credentials, login_endpoint: &str, millis: u128) -> (r: HttpRequest)
    ensures
        r.method == HttpMethod::Post,
        r.url@ == login_endpoint@ + "/logout.xml"@,
        r.query@.len() == 0,
        r.headers.deep_view() == seq![
            form_content_type(),
            ("Content-Length"@, decimal(logout_form(creds.username@, millis as nat).len())),
        ],
        opt_view(r.body) == Some(logout_form(creds.username@, millis as nat)),
{
    let mut body = String::from_str("mode=193&username=");
    body.append(creds.username.as_str());
    body.append("&a=");
    let t = decimal_string(millis);
    body.append(t.as_str());
    body.append("&producttype=1");
    counted_form_post(concat2(login_endpoint, "/logout.xml"), body)
}

/// The request that signs `creds` in to the user portal at `portal_endpoint`,
/// whose reply carries the session cookie.
pub fn portal_login(creds: &Credentials, portal_endpoint: &str, millis: u128) -> (r: HttpRequest)
    ensures
        r.method == HttpMethod::Post,
        r.url@ == portal_endpoint@ + "/userportal/Controller"@,
        r.query@.len() == 0,
        r.headers.deep_view() == seq![form_content_type()],
        opt_view(r.body) == Some(portal_login_form(creds.username@, creds.password@, millis as nat)),
{
    let mut body = String::from_str("mode=451&json=%7B%22username%22%3A%22");
    body.append(creds.username.as_str());
    body.append("%22%2C%22password%22%3A%22");
    body.append(creds.password.as_str());
    body.append("%22%2C%22languageid%22%3A%221%22%2C%22browser%22%3A%22Chrome_109%22%7D&t=");
    let t = decimal_string(millis);
    body.append(t.as_str());
    let mut headers: Vec<(String, String)> = Vec::new();
    headers.push(pair("Content-Type", "application/x-www-form-urlencoded"));
    proof {
        assert(headers.deep_view() =~= seq![form_content_type()]);
    }
    HttpRequest {
        method: HttpMethod::Post,
        url: concat2(portal_endpoint, "/userportal/Controller"),
        query: Vec::new(),
        headers,
        body: Some(body),
    }
}

/// The request for the account page that holds the CSRF token, sent with the session cookie.
pub fn csrf_page_request(portal_endpoint: &str, cookie: &str, version: &str) -> (r: HttpRequest)
    ensures
        r.method == HttpMethod::Get,
        r.url@ == portal_endpoint@ + "/userportal/webpages/myaccount/index.jsp"@,
        r.query@.len() == 0,
        r.headers.deep_view() == seq![
            ("cookie"@, cookie@),
            ("user-agent"@, user_agent(version@)),
        ],
        r.body is None,
{
    let mut headers: Vec<(String, String)> = Vec::new();
    headers.push(pair("cookie", cookie));
    headers.push((String::from_str("user-agent"), concat2("AutoCampnetRuntime/", version)));
    proof {
        assert(headers.deep_view() =~= seq![
            ("cookie"@, cookie@),
            ("user-agent"@, user_agent(version@)),
        ]);
    }
    HttpRequest {
        method: HttpMethod::Get,
        url: concat2(portal_endpoint, "/userportal/webpages/myaccount/index.jsp"),
        query: Vec::new(),
        headers,
        body: None,
    }
}

/// The request for the account status page, which holds the traffic table.
pub fn account_status_request(
    portal_endpoint: &str,
    cookie: &str,
    csrf: &str,
    version: &str,
    millis: u128,
) -> (r: HttpRequest)
    ensures
        r.method == HttpMethod::Get,
        r.url@ == portal_endpoint@ + "/userportal/webpages/myaccount/AccountStatus.jsp"@,
        r.query.deep_view() == seq![("popup"@, "0"@), ("t"@, decimal(millis as nat))],
        r.headers.deep_view() == seq![
            ("X-CSRF-Token"@, csrf@),
            ("cookie"@, cookie@),
            ("user-agent"@, user_agent(version@)),
            ("referer"@, portal_endpoint@ + "/userportal/webpages/myaccount/login.jsp"@),
        ],
        r.body is None,
{
    let mut query: Vec<(String, String)> = Vec::new();
    query.push(pair("popup", "0"));
    query.push((String::from_str("t"), decimal_string(millis)));
    let mut headers: Vec<(String, String)> = Vec::new();
    headers.push(pair("X-CSRF-Token", csrf));
    headers.push(pair("cookie", cookie));
    headers.push((String::from_str("user-agent"), concat2("AutoCampnetRuntime/", version)));
    headers.push(
        (
            String::from_str("referer"),
            concat2(portal_endpoint, "/userportal/webpages/myaccount/login.jsp"),
        ),
    );
    proof {
        assert(query.deep_view() =~= seq![("popup"@, "0"@), ("t"@, decimal(millis as nat))]);
        assert(headers.deep_view() =~= seq![
            ("X-CSRF-Token"@, csrf@),
            ("cookie"@, cookie@),
            ("user-agent"@, user_agent(version@)),
            ("referer"@, portal_endpoint@ + "/userportal/webpages/myaccount/login.jsp"@),
        ]);
    }
    HttpRequest {
        method: HttpMethod::Get,
        url: concat2(portal_endpoint, "/userportal/webpages/myaccount/AccountStatus.jsp"),
        query,
        headers,
        body: None,
    }
}

/// A bare `HEAD` request to `url`, which tells whether `url` answers at all.
pub fn probe(url: &str) -> (r: HttpRequest)
    ensures
        r.method == HttpMethod::Head,
        r.url@ == url@,
        r.query@.len() == 0,
        r.headers@.len() == 0,
        r.body is None,
{
    bare_request(HttpMethod::Head, url.to_owned())
}

// ---------------------------------------------------------------------------
// Replies
// ---------------------------------------------------------------------------

/// The session cookie in a `Set-Cookie` header: its text before the first `;`.
pub fn cookie_from_set_cookie(header: &str) -> (c: String)
    ensures
        Some(c@) == field(header@, ';', 0),
{
    match split_field(header, ';', 0) {
        Some(c) => c,
        None => {
            assert(false);
            String::new()
        },
    }
}

/// Name for what the `regex` crate reports as the text of the leftmost-first match
/// of `pattern` in `haystack` (group 0 of `Regex::captures`), or `None` where the
/// pattern does not compile or nothing matches.
pub uninterp spec fn regex_whole_match(pattern: Seq<char>, haystack: Seq<char>) -> Option<Seq<char>>;

/// Compiles `pattern` with `regex::Regex::new` and returns group 0 of
/// `Regex::captures` on `haystack`. Trusted: the contract only ties the result to
/// the name `regex_whole_match` of its two arguments; what the regex engine
/// matches is not stated.
#[verifier::external_body]
fn regex_captures_whole(pattern: &str, haystack: &str) -> (r: Option<String>)
    ensures
        opt_view(r) == regex_whole_match(pattern@, haystack@),
{
    let re = regex::Regex::new(pattern).ok()?;
    let caps = re.captures(haystack)?;
    caps.get(0).map(|m| m.as_str().to_string())
}

/// The pattern that finds the CSRF token on the account page.
pub open spec fn csrf_pattern() -> Seq<char> {
    "k3n = '(.+)'"@
}

/// The CSRF token inside a match of `csrf_pattern`: the text between its first two quotes.
pub fn csrf_from_match(m: &str) -> (r: Option<String>)
    ensures
        opt_view(r) == field(m@, '\'', 1),
{
    split_field(m, '\'', 1)
}

/// The CSRF token on the account page `page`, where the pattern finds one.
pub fn read_csrf(page: &str) -> (r: Option<String>)
    ensures
        opt_view(r) == (match regex_whole_match(csrf_pattern(), page@) {
            Some(m) => field(m, '\'', 1),
            None => None,
        }),
{
    let pattern = "k3n = '(.+)'";
    match regex_captures_whole(pattern, page) {
        Some(m) => csrf_from_match(m.as_str()),
        None => None,
    }
}

/// What a reply to the login form says.
#[derive(Clone, Copy, PartialEq, Eq, Structural, Debug)]
pub enum LoginOutcome {
    /// The session is live.
    LoggedIn,
    /// The portal refused the credentials.
    IncorrectCredentials,
    /// The account has no data left today.
    LimitExceeded,
    /// Anything else.
    Failed,
}

/// The outcome that a login reply reports: `LIVE` first, then `failed`, then `exceeded`.
pub open spec fn spec_login_outcome(reply: Seq<char>) -> LoginOutcome {
    if has_substring(reply, "LIVE"@) {
        LoginOutcome::LoggedIn
    } else if has_substring(reply, "failed"@) {
        LoginOutcome::IncorrectCredentials
    } else if has_substring(reply, "exceeded"@) {
        LoginOutcome::LimitExceeded
    } else {
        LoginOutcome::Failed
    }
}

/// Reads the reply to the login form.
pub fn login_outcome(reply: &str) -> (o: LoginOutcome)
    ensures
        o == spec_login_outcome(reply@),
{
    if contains(reply, "LIVE") {
        LoginOutcome::LoggedIn
    } else if contains(reply, "failed") {
        LoginOutcome::IncorrectCredentials
    } else if contains(reply, "exceeded") {
        LoginOutcome::LimitExceeded
    } else {
        LoginOutcome::Failed
    }
}

/// The answer to a check of new credentials: whether the logout went through,
/// and the reply to the login that followed it, if that request went through.
/// A live session or a used-up allowance both mean the credentials are good.
pub open spec fn spec_credential_check(logout_ok: bool, login_reply: Option<Seq<char>>) -> Result<(), Seq<char>> {
    if !logout_ok {
        Err("NOSOPHOS"@)
    } else {
        match login_reply {
            None => Err("UNKNOWN"@),
            Some(reply) => if has_substring(reply, "LIVE"@) || has_substring(reply, "exceeded"@) {
                Ok(())
            } else if has_substring(reply, "failed"@) {
                Err("INVALIDCRED"@)
            } else {
                Err("UNKNOWN"@)
            },
        }
    }
}

/// The result of a check of new credentials as the window receives it.
pub fn credential_check_verdict(logout_ok: bool, login_reply: Option<&str>) -> (r: Result<(), String>)
    ensures
        match (r, spec_credential_check(logout_ok, match login_reply { Some(s) => Some(s@), None => None })) {
            (Ok(()), Ok(())) => true,
            (Err(e), Err(f)) => e@ == f,
            _ => false,
        },
{
    if !logout_ok {
        return Err(String::from_str("NOSOPHOS"));
    }
    match login_reply {
        None => Err(String::from_str("UNKNOWN")),
        Some(reply) => {
            if contains(reply, "LIVE") || contains(reply, "exceeded") {
                Ok(())
            } else if contains(reply, "failed") {
                Err(String::from_str("INVALIDCRED"))
            } else {
                Err(String::from_str("UNKNOWN"))
            }
        },
    }
}

} // verus!
