//! The notices that report the outcome of a login attempt or of saving credentials.
use vstd::prelude::*;
use crate::data::{Notice, notice, notice_view};

verus! {

/// Logged in to the campus network.
pub fn notify_logged_in() -> (n: Notice)
    ensures
        notice_view(n) == ("Connected to Campnet!"@, Some("Logged in successfully to campus network"@)),
{
    notice("Connected to Campnet!", "Logged in successfully to campus network")
}

/// The portal refused the username or password.
pub fn notify_incorrect_creds() -> (n: Notice)
    ensures
        notice_view(n) == ("Could not connect to Campnet!"@, Some("Incorrect credentials were provided"@)),
{
    notice("Could not connect to Campnet!", "Incorrect credentials were provided")
}

/// The account has used up its daily data.
pub fn notify_limit_exceeded() -> (n: Notice)
    ensures
        notice_view(n) == ("Could not connect to Campnet!"@, Some("Daily data limit exceeded on credentials"@)),
{
    notice("Could not connect to Campnet!", "Daily data limit exceeded on credentials")
}

/// The login attempt failed for another reason.
pub fn notify_failure_generic() -> (n: Notice)
    ensures
        notice_view(n) == ("Could not connect to Campnet!"@, Some("There was an issue with the login attempt"@)),
{
    notice("Could not connect to Campnet!", "There was an issue with the login attempt")
}

/// Logged out of the campus network.
pub fn notify_logged_out() -> (n: Notice)
    ensures
        notice_view(n) == ("Logged out of campnet!"@, Some(""@)),
{
    notice("Logged out of campnet!", "")
}

/// The logout request failed.
pub fn notify_logout_error() -> (n: Notice)
    ensures
        notice_view(n) == ("Unable to logout of campnet!"@, Some(""@)),
{
    notice("Unable to logout of campnet!", "")
}

/// The credentials were written to disk.
pub fn notify_creds_saved() -> (n: Notice)
    ensures
        notice_view(n) == ("Credentials saved to disk"@, Some("App will try to login to campnet whenever available"@)),
{
    notice("Credentials saved to disk", "App will try to login to campnet whenever available")
}

} // verus!
