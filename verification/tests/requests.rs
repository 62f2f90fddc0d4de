use autocampnet::data::Credentials;
use autocampnet::portal::{
    account_status_request, cookie_from_set_cookie, credential_check_verdict, csrf_from_match,
    csrf_page_request, login, login_outcome, logout, portal_login, probe, read_csrf,
    HttpMethod, LoginOutcome,
};

fn creds() -> Credentials {
    Credentials { username: "f20190001".to_string(), password: "pa55".to_string() }
}

fn pairs(v: &[(String, String)]) -> Vec<(&str, &str)> {
    v.iter().map(|(a, b)| (a.as_str(), b.as_str())).collect()
}

#[test]
fn login_request_is_the_login_form() {
    let r = login(&creds(), "https://campnet.example:8090", 1700000000123);
    let body = "mode=191&username=f20190001&password=pa55&a=1700000000123&producttype=1";
    assert_eq!(r.method, HttpMethod::Post);
    assert_eq!(r.url, "https://campnet.example:8090/login.xml");
    assert!(r.query.is_empty());
    assert_eq!(r.body.as_deref(), Some(body));
    let len = body.chars().count().to_string();
    assert_eq!(
        pairs(&r.headers),
        vec![("Content-Type", "application/x-www-form-urlencoded"), ("Content-Length", len.as_str())]
    );
}

#[test]
fn logout_request_is_the_logout_form() {
    let r = logout(&creds(), "https://campnet.example:8090", 5);
    assert_eq!(r.url, "https://campnet.example:8090/logout.xml");
    assert_eq!(r.body.as_deref(), Some("mode=193&username=f20190001&a=5&producttype=1"));
    assert_eq!(pairs(&r.headers)[1], ("Content-Length", "45"));
}

#[test]
fn portal_login_request_carries_json_credentials() {
    let r = portal_login(&creds(), "https://portal.example:4443", 42);
    assert_eq!(r.method, HttpMethod::Post);
    assert_eq!(r.url, "https://portal.example:4443/userportal/Controller");
    assert_eq!(
        r.body.as_deref(),
        Some("mode=451&json=%7B%22username%22%3A%22f20190001%22%2C%22password%22%3A%22pa55%22%2C%22languageid%22%3A%221%22%2C%22browser%22%3A%22Chrome_109%22%7D&t=42")
    );
    assert_eq!(pairs(&r.headers), vec![("Content-Type", "application/x-www-form-urlencoded")]);
}

#[test]
fn portal_page_requests_carry_session() {
    let r = csrf_page_request("https://p:4443", "JSESSIONID=abc", "1.2.0");
    assert_eq!(r.method, HttpMethod::Get);
    assert_eq!(r.url, "https://p:4443/userportal/webpages/myaccount/index.jsp");
    assert_eq!(pairs(&r.headers), vec![("cookie", "JSESSIONID=abc"), ("user-agent", "AutoCampnetRuntime/1.2.0")]);
    assert!(r.body.is_none());

    let a = account_status_request("https://p:4443", "JSESSIONID=abc", "tok", "1.2.0", 99);
    assert_eq!(a.url, "https://p:4443/userportal/webpages/myaccount/AccountStatus.jsp");
    assert_eq!(pairs(&a.query), vec![("popup", "0"), ("t", "99")]);
    assert_eq!(
        pairs(&a.headers),
        vec![
            ("X-CSRF-Token", "tok"),
            ("cookie", "JSESSIONID=abc"),
            ("user-agent", "AutoCampnetRuntime/1.2.0"),
            ("referer", "https://p:4443/userportal/webpages/myaccount/login.jsp"),
        ]
    );
}

#[test]
fn probe_is_a_bare_head() {
    let r = probe("https://www.google.com");
    assert_eq!(r.method, HttpMethod::Head);
    assert_eq!(r.url, "https://www.google.com");
    assert!(r.headers.is_empty() && r.query.is_empty() && r.body.is_none());
}

#[test]
fn cookie_is_the_first_attribute() {
    assert_eq!(cookie_from_set_cookie("JSESSIONID=xyz; Path=/userportal; Secure"), "JSESSIONID=xyz");
    assert_eq!(cookie_from_set_cookie("only"), "only");
    assert_eq!(cookie_from_set_cookie(";x"), "");
}

#[test]
fn csrf_token_is_read_from_the_page() {
    let page = "<script>\nvar k3n = 'a1b2c3';\nvar other = 1;\n</script>";
    assert_eq!(read_csrf(page), Some("a1b2c3".to_string()));
    assert_eq!(read_csrf("<html>no token</html>"), None);
    assert_eq!(read_csrf("k3n = ''"), None);
    assert_eq!(csrf_from_match("k3n = 'tok'"), Some("tok".to_string()));
    assert_eq!(csrf_from_match("no quotes"), None);
}

#[test]
fn csrf_token_stops_at_the_next_quote() {
    // The pattern's `.+` is greedy, but the token is cut at the first quote after it.
    let page = "k3n = 'abc'; var x = 'def';";
    assert_eq!(read_csrf(page), Some("abc".to_string()));
    assert_eq!(read_csrf("k3n = ''x'"), Some(String::new()));
}

#[test]
fn login_outcome_reads_reply() {
    assert_eq!(login_outcome("<status><![CDATA[LIVE]]></status>"), LoginOutcome::LoggedIn);
    assert_eq!(login_outcome("Login failed. Invalid user name/password."), LoginOutcome::IncorrectCredentials);
    assert_eq!(login_outcome("You have reached Maximum Login Limit / data exceeded"), LoginOutcome::LimitExceeded);
    assert_eq!(login_outcome("something else"), LoginOutcome::Failed);
    assert_eq!(login_outcome("LIVE but failed"), LoginOutcome::LoggedIn);
    assert_eq!(login_outcome("failed and exceeded"), LoginOutcome::IncorrectCredentials);
}

#[test]
fn credential_check_verdicts() {
    assert_eq!(credential_check_verdict(false, Some("LIVE")), Err("NOSOPHOS".to_string()));
    assert_eq!(credential_check_verdict(true, None), Err("UNKNOWN".to_string()));
    assert_eq!(credential_check_verdict(true, Some("LIVE")), Ok(()));
    assert_eq!(credential_check_verdict(true, Some("limit exceeded")), Ok(()));
    assert_eq!(credential_check_verdict(true, Some("failed")), Err("INVALIDCRED".to_string()));
    assert_eq!(credential_check_verdict(true, Some("failed and exceeded")), Ok(()));
    assert_eq!(credential_check_verdict(true, Some("?")), Err("UNKNOWN".to_string()));
}

#[test]
fn live_and_exceeded_replies_pass_the_check() {
    for reply in ["LIVE", "x LIVE failed", "exceeded", "quota exceeded"] {
        let o = login_outcome(reply);
        if o == LoginOutcome::LoggedIn || o == LoginOutcome::LimitExceeded {
            assert_eq!(credential_check_verdict(true, Some(reply)), Ok(()));
        }
    }
    assert_eq!(login_outcome("failed"), LoginOutcome::IncorrectCredentials);
}
