use mixpanel_component::bag::PropertyBag;
use mixpanel_component::component::enrich_with_context;
use mixpanel_component::enrich::{
    enrich_with_campaign_context, enrich_with_client_context, enrich_with_page_and_keywords,
    enrich_with_page_context, enrich_with_session_context, insert_all_nonempty,
};
use mixpanel_component::event::{Campaign, Client, Context, PageData, Session, UserData};
use mixpanel_component::helpers::insert_if_nonempty;

fn text(s: &str) -> String {
    s.to_string()
}

fn held(bag: &PropertyBag, key: &str) -> Option<String> {
    bag.get(key).cloned()
}

fn empty_client() -> Client {
    Client {
        ip: text(""),
        locale: text(""),
        timezone: text(""),
        user_agent: text(""),
        user_agent_architecture: text(""),
        user_agent_bitness: text(""),
        user_agent_version_list: text(""),
        user_agent_full_version_list: text(""),
        user_agent_mobile: text(""),
        user_agent_model: text(""),
        os_name: text(""),
        os_version: text(""),
        screen_width: 0,
        screen_height: 0,
        screen_density: 0.0_f32.to_string(),
        continent: text(""),
        country_code: text(""),
        country_name: text(""),
        region: text(""),
        city: text(""),
    }
}

fn full_client() -> Client {
    Client {
        ip: text("192.168.0.1"),
        locale: text("fr-FR"),
        timezone: text("CET"),
        user_agent: text("Chrome"),
        user_agent_architecture: text("x86"),
        user_agent_bitness: text("64"),
        user_agent_version_list: text("short"),
        user_agent_full_version_list: text("long"),
        user_agent_mobile: text("mobile"),
        user_agent_model: text("model"),
        os_name: text("MacOS"),
        os_version: text("latest"),
        screen_width: 1024,
        screen_height: 768,
        screen_density: 2.0_f32.to_string(),
        continent: text("Europe"),
        country_code: text("FR"),
        country_name: text("France"),
        region: text("West Europe"),
        city: text("Paris"),
    }
}

fn empty_campaign() -> Campaign {
    Campaign {
        name: text(""),
        source: text(""),
        medium: text(""),
        term: text(""),
        content: text(""),
        creative_format: text(""),
        marketing_tactic: text(""),
    }
}

fn empty_session() -> Session {
    Session {
        session_id: text(""),
        previous_session_id: text(""),
        session_count: 0,
        session_start: false,
        first_seen: 0,
        last_seen: 0,
    }
}

fn empty_page() -> PageData {
    PageData {
        name: text(""),
        category: text(""),
        keywords: vec![],
        title: text(""),
        url: text(""),
        path: text(""),
        search: text(""),
        referrer: text(""),
        properties: vec![],
    }
}

#[test]
fn insert_if_nonempty_skips_white_space() {
    let mut bag = PropertyBag::new();
    insert_if_nonempty(&mut bag, "a", " ");
    insert_if_nonempty(&mut bag, "b", "\t\n");
    insert_if_nonempty(&mut bag, "c", "\u{00A0}");
    assert!(bag.entries().is_empty());
}

#[test]
fn insert_if_nonempty_keeps_the_value_untrimmed() {
    let mut bag = PropertyBag::new();
    insert_if_nonempty(&mut bag, "a", "  padded  ");
    assert_eq!(held(&bag, "a"), Some(text("  padded  ")));
}

#[test]
fn insert_if_nonempty_keeps_the_old_value_on_blank() {
    let mut bag = PropertyBag::new();
    insert_if_nonempty(&mut bag, "a", "first");
    insert_if_nonempty(&mut bag, "a", "");
    assert_eq!(held(&bag, "a"), Some(text("first")));
    insert_if_nonempty(&mut bag, "a", "second");
    assert_eq!(held(&bag, "a"), Some(text("second")));
}

#[test]
fn insert_all_nonempty_goes_first_to_last() {
    let mut bag = PropertyBag::new();
    insert_all_nonempty(
        &mut bag,
        &vec![
            (text("a"), text("1")),
            (text("b"), text("")),
            (text("a"), text("2")),
            (text("c"), text("3")),
            (text("c"), text(" ")),
        ],
    );
    assert_eq!(held(&bag, "a"), Some(text("2")));
    assert_eq!(held(&bag, "b"), None);
    assert_eq!(held(&bag, "c"), Some(text("3")));
    assert_eq!(bag.entries().len(), 2);
}

#[test]
fn client_block_with_every_text() {
    let mut bag = PropertyBag::new();
    enrich_with_client_context(&mut bag, &full_client());
    let expected = [
        ("ip", "192.168.0.1"),
        ("city", "Paris"),
        ("country_code", "FR"),
        ("country_name", "France"),
        ("continent", "Europe"),
        ("region", "West Europe"),
        ("locale", "fr-FR"),
        ("timezone", "CET"),
        ("os_name", "MacOS"),
        ("os_version", "latest"),
        ("user_agent", "Chrome"),
        ("user_agent_architecture", "x86"),
        ("user_agent_bitness", "64"),
        ("user_agent_full_version_list", "long"),
        ("user_agent_version_list", "short"),
        ("user_agent_mobile", "mobile"),
        ("user_agent_model", "model"),
        ("screen_width", "1024"),
        ("screen_height", "768"),
        ("screen_density", "2"),
    ];
    for (key, value) in expected {
        assert_eq!(held(&bag, key), Some(text(value)), "{}", key);
    }
    assert_eq!(bag.entries().len(), expected.len());
}

#[test]
fn client_block_without_texts_still_writes_the_screen() {
    let mut bag = PropertyBag::new();
    enrich_with_client_context(&mut bag, &empty_client());
    assert_eq!(held(&bag, "screen_width"), Some(text("0")));
    assert_eq!(held(&bag, "screen_height"), Some(text("0")));
    assert_eq!(held(&bag, "screen_density"), Some(text("0")));
    assert_eq!(bag.entries().len(), 3);
    assert!(!bag.contains_key("ip"));
    assert!(!bag.contains_key("user_agent"));
}

#[test]
fn client_block_writes_negative_measures() {
    let mut client = empty_client();
    client.screen_width = -1;
    client.screen_height = i32::MIN;
    client.screen_density = 1.5_f32.to_string();
    let mut bag = PropertyBag::new();
    enrich_with_client_context(&mut bag, &client);
    assert_eq!(held(&bag, "screen_width"), Some(text("-1")));
    assert_eq!(held(&bag, "screen_height"), Some(text("-2147483648")));
    assert_eq!(held(&bag, "screen_density"), Some(text("1.5")));
}

#[test]
fn client_block_replaces_what_the_bag_held() {
    let mut bag = PropertyBag::new();
    bag.insert(text("city"), text("Lyon"));
    bag.insert(text("region"), text("South"));
    bag.insert(text("screen_width"), text("none"));
    let mut client = empty_client();
    client.city = text("Paris");
    enrich_with_client_context(&mut bag, &client);
    assert_eq!(held(&bag, "city"), Some(text("Paris")));
    assert_eq!(held(&bag, "region"), Some(text("South")));
    assert_eq!(held(&bag, "screen_width"), Some(text("0")));
}

#[test]
fn campaign_block_uses_prefixed_keys() {
    let campaign = Campaign {
        name: text("spring"),
        source: text("newsletter"),
        medium: text("email"),
        term: text("shoes"),
        content: text("banner"),
        creative_format: text("video"),
        marketing_tactic: text("retargeting"),
    };
    let mut bag = PropertyBag::new();
    enrich_with_campaign_context(&mut bag, &campaign);
    assert_eq!(held(&bag, "campaign_name"), Some(text("spring")));
    assert_eq!(held(&bag, "campaign_source"), Some(text("newsletter")));
    assert_eq!(held(&bag, "campaign_medium"), Some(text("email")));
    assert_eq!(held(&bag, "campaign_term"), Some(text("shoes")));
    assert_eq!(held(&bag, "campaign_content"), Some(text("banner")));
    assert_eq!(held(&bag, "campaign_creative_format"), Some(text("video")));
    assert_eq!(held(&bag, "campaign_marketing_tactic"), Some(text("retargeting")));
    assert_eq!(bag.entries().len(), 7);
    assert!(!bag.contains_key("name"));
}

#[test]
fn campaign_block_drops_blank_texts() {
    let mut campaign = empty_campaign();
    campaign.medium = text("email");
    campaign.term = text("  ");
    let mut bag = PropertyBag::new();
    enrich_with_campaign_context(&mut bag, &campaign);
    assert_eq!(held(&bag, "campaign_medium"), Some(text("email")));
    assert_eq!(bag.entries().len(), 1);
}

#[test]
fn session_block_always_writes_the_counters() {
    let mut bag = PropertyBag::new();
    enrich_with_session_context(&mut bag, &empty_session());
    assert_eq!(held(&bag, "session_count"), Some(text("0")));
    assert_eq!(held(&bag, "session_start"), Some(text("false")));
    assert_eq!(held(&bag, "first_seen"), Some(text("0")));
    assert_eq!(held(&bag, "last_seen"), Some(text("0")));
    assert!(!bag.contains_key("session_id"));
    assert!(!bag.contains_key("previous_session_id"));
    assert_eq!(bag.entries().len(), 4);
}

#[test]
fn session_block_with_values() {
    let session = Session {
        session_id: text("s-2"),
        previous_session_id: text("s-1"),
        session_count: u32::MAX,
        session_start: true,
        first_seen: 1_700_000_000,
        last_seen: -5,
    };
    let mut bag = PropertyBag::new();
    enrich_with_session_context(&mut bag, &session);
    assert_eq!(held(&bag, "session_id"), Some(text("s-2")));
    assert_eq!(held(&bag, "previous_session_id"), Some(text("s-1")));
    assert_eq!(held(&bag, "session_count"), Some(text("4294967295")));
    assert_eq!(held(&bag, "session_start"), Some(text("true")));
    assert_eq!(held(&bag, "first_seen"), Some(text("1700000000")));
    assert_eq!(held(&bag, "last_seen"), Some(text("-5")));
}

#[test]
fn page_block_writes_texts_keywords_and_properties() {
    let page = PageData {
        name: text("page name"),
        category: text("category"),
        keywords: vec![text("value1"), text("value2")],
        title: text("page title"),
        url: text("https://example.com/full-url?test=1"),
        path: text("/full-path"),
        search: text("?test=1"),
        referrer: text("https://example.com/another-page"),
        properties: vec![(text("prop1"), text("value1")), (text("currency"), text("USD"))],
    };
    let mut bag = PropertyBag::new();
    enrich_with_page_context(&mut bag, &page);
    assert_eq!(held(&bag, "url"), Some(text("https://example.com/full-url?test=1")));
    assert_eq!(held(&bag, "path"), Some(text("/full-path")));
    assert_eq!(held(&bag, "title"), Some(text("page title")));
    assert_eq!(held(&bag, "category"), Some(text("category")));
    assert_eq!(held(&bag, "name"), Some(text("page name")));
    assert_eq!(held(&bag, "referrer"), Some(text("https://example.com/another-page")));
    assert_eq!(held(&bag, "keywords"), Some(text("[\"value1\",\"value2\"]")));
    assert_eq!(held(&bag, "prop1"), Some(text("value1")));
    assert_eq!(held(&bag, "currency"), Some(text("USD")));
    assert!(!bag.contains_key("search"));
    assert_eq!(bag.entries().len(), 9);
}

#[test]
fn keywords_read_back_as_the_same_list() {
    let keywords =
        vec![text("plain"), text("with \"quotes\""), text("back\\slash"), text("é\n\t"), text("")];
    let mut page = empty_page();
    page.keywords = keywords.clone();
    let mut bag = PropertyBag::new();
    enrich_with_page_context(&mut bag, &page);
    let written = held(&bag, "keywords").unwrap();
    let read: Vec<String> = serde_json::from_str(&written).unwrap();
    assert_eq!(read, keywords);
}

#[test]
fn empty_keyword_list_writes_nothing() {
    let mut bag = PropertyBag::new();
    enrich_with_page_context(&mut bag, &empty_page());
    assert!(bag.entries().is_empty());
}

#[test]
fn page_property_named_keywords_takes_the_key() {
    let mut page = empty_page();
    page.keywords = vec![text("a")];
    page.properties = vec![(text("keywords"), text("mine")), (text("url"), text("from property"))];
    page.url = text("from page");
    let mut bag = PropertyBag::new();
    enrich_with_page_context(&mut bag, &page);
    assert_eq!(held(&bag, "keywords"), Some(text("mine")));
    assert_eq!(held(&bag, "url"), Some(text("from property")));
}

#[test]
fn page_block_with_a_keyword_text_at_hand() {
    let mut page = empty_page();
    page.keywords = vec![text("ignored")];
    page.title = text("title");
    let mut bag = PropertyBag::new();
    enrich_with_page_and_keywords(&mut bag, &page, Some(text("[\"x\"]")));
    assert_eq!(held(&bag, "keywords"), Some(text("[\"x\"]")));
    assert_eq!(held(&bag, "title"), Some(text("title")));

    let mut bag = PropertyBag::new();
    enrich_with_page_and_keywords(&mut bag, &page, None);
    assert!(!bag.contains_key("keywords"));
    assert_eq!(held(&bag, "title"), Some(text("title")));
}

#[test]
fn context_blocks_come_in_order() {
    let mut page = empty_page();
    page.url = text("https://context.example");
    page.properties = vec![
        (text("campaign_name"), text("from page property")),
        (text("city"), text("from page property")),
        (text("session_count"), text("from page property")),
        (text("custom"), text("kept")),
    ];
    let mut campaign = empty_campaign();
    campaign.name = text("from campaign");
    let context = Context {
        page,
        user: UserData {
            user_id: text(""),
            anonymous_id: text(""),
            edgee_id: text(""),
            properties: vec![],
        },
        client: empty_client(),
        campaign,
        session: empty_session(),
    };
    let mut bag = PropertyBag::new();
    bag.insert(text("url"), text("https://payload.example"));
    bag.insert(text("title"), text("payload title"));
    enrich_with_context(&mut bag, &context);
    assert_eq!(held(&bag, "url"), Some(text("https://context.example")));
    assert_eq!(held(&bag, "title"), Some(text("payload title")));
    assert_eq!(held(&bag, "campaign_name"), Some(text("from campaign")));
    assert_eq!(held(&bag, "city"), Some(text("from page property")));
    assert_eq!(held(&bag, "session_count"), Some(text("0")));
    assert_eq!(held(&bag, "custom"), Some(text("kept")));
}
