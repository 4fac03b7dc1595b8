//! Regular expressions, compiled and run by the `regex` crate.

use regex::Regex;
use vstd::prelude::*;

verus! {

/// What the crate finds for `pattern` in `haystack`. `None`: the pattern does
/// not compile, or it matches nowhere. Else, of the leftmost match, the text
/// that group `group` captured, or `None` where that group took no part in
/// the match or the pattern has no such group.
pub uninterp spec fn regex_capture(pattern: Seq<char>, haystack: Seq<char>, group: nat) -> Option<
    Option<Seq<char>>,
>;

/// The patterns that this library searches with. They are small: the limits
/// that the crate sets on the size of a compiled pattern, which it measures
/// in the memory of the machine, play no part in them.
pub open spec fn browser_pattern(pattern: Seq<char>) -> bool {
    ||| pattern == "(Firefox)/([\\d\\.]+)"@
    ||| pattern == "(Edg)/([\\d\\.]+)"@
    ||| pattern == "(Chrome)/([\\d\\.]+)"@
    ||| pattern == "(Safari)/([\\d\\.]+)"@
    ||| pattern == "(Opera)/([\\d\\.]+)"@
}

/// `Regex::new` on the pattern, then `Regex::captures` on the haystack and
/// `Captures::get` on the group, taken to give what `regex_capture` names:
/// the same for the same pattern, haystack and group. This is claimed of the
/// library's own patterns only.
#[verifier::external_body]
pub(crate) fn capture(pattern: &str, haystack: &str, group: usize) -> (found: Option<
    Option<String>,
>)
    requires
        browser_pattern(pattern@),
    ensures
        found.deep_view() == regex_capture(pattern@, haystack@, group as nat),
{
    let regex = Regex::new(pattern).ok()?;
    let captures = regex.captures(haystack)?;
    Some(captures.get(group).map(|m| m.as_str().to_string()))
}

} // verus!
