use mixpanel_component::helpers::{browser_match, parse_browser_info};

fn some(s: &str) -> Option<String> {
    Some(s.to_string())
}

#[test]
fn parse_browser_info_detects_firefox() {
    let ua = "Mozilla/5.0 (X11; Linux x86_64; rv:121.0) Gecko/20100101 Firefox/121.0";
    assert_eq!(parse_browser_info(ua), (some("Firefox"), some("121.0")));
}

#[test]
fn parse_browser_info_prefers_edge_over_chrome() {
    let ua = "Mozilla/5.0 (Windows NT 10.0; Win64; x64) AppleWebKit/537.36 (KHTML, like Gecko) Chrome/120.0.0.0 Safari/537.36 Edg/120.0.2210.91";
    assert_eq!(parse_browser_info(ua), (some("Edge"), some("120.0.2210.91")));
}

#[test]
fn parse_browser_info_detects_safari() {
    let ua = "Mozilla/5.0 (Macintosh; Intel Mac OS X 10_15_7) AppleWebKit/605.1.15 (KHTML, like Gecko) Version/17.2 Safari/605.1.15";
    assert_eq!(parse_browser_info(ua), (some("Safari"), some("605.1.15")));
}

#[test]
fn parse_browser_info_detects_opera() {
    let ua = "Opera/9.80 (Windows NT 6.1) Presto/2.12.388 Version/12.18";
    assert_eq!(parse_browser_info(ua), (some("Opera"), some("9.80")));
}

#[test]
fn parse_browser_info_finds_nothing() {
    assert_eq!(parse_browser_info(""), (None, None));
    assert_eq!(parse_browser_info("curl/8.4.0"), (None, None));
    assert_eq!(parse_browser_info("Chrome"), (None, None));
    assert_eq!(parse_browser_info("Chrome/"), (None, None));
    assert_eq!(parse_browser_info("chrome/1.0"), (None, None));
}

#[test]
fn parse_browser_info_takes_digits_and_dots() {
    assert_eq!(parse_browser_info("Chrome/1"), (some("Chrome"), some("1")));
    assert_eq!(parse_browser_info("Chrome/1.2beta"), (some("Chrome"), some("1.2")));
    assert_eq!(parse_browser_info("Chrome/..."), (some("Chrome"), some("...")));
    assert_eq!(parse_browser_info("xChrome/10 Chrome/20"), (some("Chrome"), some("10")));
}

#[test]
fn browser_match_reads_one_search() {
    assert_eq!(browser_match("Chrome", None), None);
    assert_eq!(browser_match("Chrome", Some(None)), Some((some("Chrome"), None)));
    assert_eq!(browser_match("Chrome", Some(some("1.0"))), Some((some("Chrome"), some("1.0"))));
}
