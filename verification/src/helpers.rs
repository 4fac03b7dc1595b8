//! Small helpers that the mappers share.

use crate::bag::PropertyBag;
use crate::matching::{browser_pattern, capture, regex_capture};
use crate::text::{blank, is_blank};
use vstd::prelude::*;

verus! {

/// The bag after `value` was offered under `key`: a blank value leaves the bag as it was.
pub open spec fn put_nonblank(
    bag: Map<Seq<char>, Seq<char>>,
    key: Seq<char>,
    value: Seq<char>,
) -> Map<Seq<char>, Seq<char>> {
    if blank(value) {
        bag
    } else {
        bag.insert(key, value)
    }
}

/// The base address of the ingestion API in `region`.
pub open spec fn endpoint_text(region: Seq<char>) -> Seq<char> {
    "https://"@ + region + ".mixpanel.com"@
}

/// The browsers that are looked for, in this order: the pattern, and the name
/// to report. Group 2 of each pattern is the version.
pub open spec fn browser_patterns() -> Seq<(Seq<char>, Seq<char>)> {
    seq![
        ("(Firefox)/([\\d\\.]+)"@, "Firefox"@),
        ("(Edg)/([\\d\\.]+)"@, "Edge"@),
        ("(Chrome)/([\\d\\.]+)"@, "Chrome"@),
        ("(Safari)/([\\d\\.]+)"@, "Safari"@),
        ("(Opera)/([\\d\\.]+)"@, "Opera"@),
    ]
}

/// What a search for one browser tells: nothing where the pattern found
/// nothing, else the browser's name and the version that was captured.
pub open spec fn browser_of(name: Seq<char>, found: Option<Option<Seq<char>>>) -> Option<
    (Option<Seq<char>>, Option<Seq<char>>),
> {
    match found {
        Some(version) => Some((Some(name), version)),
        None => None,
    }
}

/// The first browser of the list whose pattern finds something in `user_agent`.
pub open spec fn browser_among(
    user_agent: Seq<char>,
    patterns: Seq<(Seq<char>, Seq<char>)>,
) -> (Option<Seq<char>>, Option<Seq<char>>)
    decreases patterns.len(),
{
    if patterns.len() == 0 {
        (None, None)
    } else {
        match browser_of(patterns[0].1, regex_capture(patterns[0].0, user_agent, 2)) {
            Some(info) => info,
            None => browser_among(user_agent, patterns.drop_first()),
        }
    }
}

/// Puts `value` under `key` unless the value is blank.
pub fn insert_if_nonempty(map: &mut PropertyBag, key: &str, value: &str)
    ensures
        final(map)@ == put_nonblank(old(map)@, key@, value@),
{
    if !is_blank(value) {
        map.insert(key.to_string(), value.to_string());
    }
}

/// The base address of the ingestion API in `region`. The region is taken as it is.
pub fn mixpanel_endpoint(region: &str) -> (url: String)
    ensures
        url@ == endpoint_text(region@),
{
    let mut url = "https://".to_string();
    url.append(region);
    url.append(".mixpanel.com");
    url
}

/// Reads the outcome of the search for one browser: its name and version
/// where the pattern found something.
pub fn browser_match(name: &str, found: Option<Option<String>>) -> (info: Option<
    (Option<String>, Option<String>),
>)
    ensures
        info.deep_view() == browser_of(name@, found.deep_view()),
{
    match found {
        Some(version) => Some((Some(name.to_string()), version)),
        None => None,
    }
}

/// Names the browser of a user agent, with its version: the first of Firefox,
/// Edge, Chrome, Safari and Opera whose pattern is found in it.
pub fn parse_browser_info(user_agent: &str) -> (info: (Option<String>, Option<String>))
    ensures
        info.deep_view() == browser_among(user_agent@, browser_patterns()),
{
    let browser_regexes: Vec<(&str, &str)> = vec![
        ("(Firefox)/([\\d\\.]+)", "Firefox"),
        ("(Edg)/([\\d\\.]+)", "Edge"),
        ("(Chrome)/([\\d\\.]+)", "Chrome"),
        ("(Safari)/([\\d\\.]+)", "Safari"),
        ("(Opera)/([\\d\\.]+)", "Opera"),
    ];
    let ghost all = browser_regexes.deep_view();
    proof {
        assert(all =~= browser_patterns());
        assert(all.skip(0) =~= all);
    }
    let mut i: usize = 0;
    while i < browser_regexes.len()
        invariant
            i <= browser_regexes.len(),
            all == browser_regexes.deep_view(),
            all == browser_patterns(),
            browser_among(user_agent@, all) == browser_among(user_agent@, all.skip(i as int)),
        decreases browser_regexes.len() - i,
    {
        let pattern = browser_regexes[i].0;
        let name = browser_regexes[i].1;
        proof {
            assert(all.skip(i as int).drop_first() =~= all.skip(i + 1));
            assert(all.skip(i as int)[0] == (pattern@, name@));
            assert(browser_pattern(browser_patterns()[i as int].0));
        }
        match browser_match(name, capture(pattern, user_agent, 2)) {
            Some(info) => {
                return info;
            },
            None => {},
        }
        i = i + 1;
    }
    (None, None)
}

} // verus!
