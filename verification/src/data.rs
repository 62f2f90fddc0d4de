//! The values that the client keeps and hands to its window.
use vstd::prelude::*;

verus! {

/// The portal account that the client logs in with.
pub struct Credentials {
    pub username: String,
    pub password: String,
}

impl Credentials {
    /// Credentials with an empty username and an empty password.
    pub fn default() -> (c: Credentials)
        ensures
            c.username@ == Seq::<char>::empty(),
            c.password@ == Seq::<char>::empty(),
    {
        Credentials { username: String::new(), password: String::new() }
    }

    /// Whether the username or the password is empty, so that nothing can be
    /// sent to the portal and the window has to ask for them.
    pub fn has_blank_field(&self) -> (b: bool)
        ensures
            b == (self.username@.len() == 0 || self.password@.len() == 0),
    {
        self.username.as_str().unicode_len() == 0 || self.password.as_str().unicode_len() == 0
    }
}

/// The unit (such as `MB`) that the portal's account page gives for each traffic figure.
pub struct TrafficUnits {
    pub total: String,
    pub last: String,
    pub current: String,
    pub used: String,
    pub remaining: String,
}

impl TrafficUnits {
    /// Units that are all empty, shown before the first reading.
    pub fn default() -> (u: TrafficUnits)
        ensures
            u.total@ == Seq::<char>::empty(),
            u.last@ == Seq::<char>::empty(),
            u.current@ == Seq::<char>::empty(),
            u.used@ == Seq::<char>::empty(),
            u.remaining@ == Seq::<char>::empty(),
    {
        TrafficUnits {
            total: String::new(),
            last: String::new(),
            current: String::new(),
            used: String::new(),
            remaining: String::new(),
        }
    }
}

/// How much of the daily data allowance has been used, as last measured.
#[derive(Clone, Copy, PartialEq, Eq, Structural, Debug)]
pub enum NotificationState {
    /// Less than half.
    Under50,
    /// At least half, less than nine tenths.
    Used50,
    /// At least nine tenths, not all of it.
    Used90,
    /// All of it.
    Used100,
}

/// A desktop notification: a title and, where one is set, a body.
pub struct Notice {
    pub title: String,
    pub body: Option<String>,
}

/// An optional text as an optional character sequence.
pub open spec fn opt_view(o: Option<String>) -> Option<Seq<char>> {
    match o {
        Some(s) => Some(s@),
        None => None,
    }
}

/// The notice's text as plain sequences, for contracts.
pub open spec fn notice_view(n: Notice) -> (Seq<char>, Option<Seq<char>>) {
    (
        n.title@,
        opt_view(n.body),
    )
}

/// A notice with the given title and body.
pub fn notice(title: &str, body: &str) -> (n: Notice)
    ensures
        notice_view(n) == (title@, Some(body@)),
{
    Notice { title: title.to_owned(), body: Some(body.to_owned()) }
}

/// A notice with only a title.
pub fn title_only_notice(title: &str) -> (n: Notice)
    ensures
        notice_view(n) == (title@, None::<Seq<char>>),
{
    Notice { title: title.to_owned(), body: None }
}

} // verus!
