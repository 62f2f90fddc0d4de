//! Starting with the desktop session: the path that is registered, and the
//! switch that the window sends.
use vstd::prelude::*;
use crate::text::{match_count, prefix_before, same_text, split_count_and_head};

verus! {

/// The path to register for an executable at `exe`: on macOS the executable sits
/// inside an application bundle, which is what has to be registered. When `.app/`
/// cuts `exe` into exactly two pieces, the bundle is the first piece with `.app`;
/// otherwise the executable's own path is kept.
pub open spec fn spec_bundle_path(exe: Seq<char>) -> Seq<char> {
    if match_count(exe, ".app/"@) == 1 {
        prefix_before(exe, ".app/"@) + ".app"@
    } else {
        exe
    }
}

/// The path to register for an executable at `exe`.
pub fn bundle_path(exe: &str) -> (p: String)
    ensures
        p@ == spec_bundle_path(exe@),
{
    proof {
        reveal_strlit(".app/");
    }
    let (cuts, head): (usize, String) = split_count_and_head(exe, ".app/");
    if cuts == 1 {
        let mut p = head;
        p.append(".app");
        p
    } else {
        exe.to_owned()
    }
}

/// What `bool::from_str` reads from `s`: exactly `true` or exactly `false`.
pub open spec fn spec_parse_bool(s: Seq<char>) -> Option<bool> {
    if s == "true"@ {
        Some(true)
    } else if s == "false"@ {
        Some(false)
    } else {
        None
    }
}

/// Reads the on/off switch that the window sends for starting with the session.
pub fn parse_bool(s: &str) -> (b: Option<bool>)
    ensures
        b == spec_parse_bool(s@),
{
    if same_text(s, "true") {
        Some(true)
    } else if same_text(s, "false") {
        Some(false)
    } else {
        None
    }
}

} // verus!
