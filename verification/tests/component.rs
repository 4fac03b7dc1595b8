use mixpanel_component::component::Component;
use mixpanel_component::event::{
    Campaign, Client, Consent, Context, Data, Event, EventType, PageData, Session, TrackData,
    UserData,
};
use uuid::Uuid;

fn sample_user_data(edgee_id: String) -> UserData {
    UserData {
        user_id: "123".to_string(),
        anonymous_id: "456".to_string(),
        edgee_id,
        properties: vec![
            ("prop1".to_string(), "value1".to_string()),
            ("prop2".to_string(), "10".to_string()),
        ],
    }
}

fn sample_context(edgee_id: String, locale: String, session_start: bool) -> Context {
    Context {
        page: sample_page_data(),
        user: sample_user_data(edgee_id),
        client: Client {
            city: "Paris".to_string(),
            ip: "192.168.0.1".to_string(),
            locale,
            timezone: "CET".to_string(),
            user_agent: "Chrome".to_string(),
            user_agent_architecture: "x86".to_string(),
            user_agent_bitness: "64".to_string(),
            user_agent_full_version_list: "abc".to_string(),
            user_agent_version_list: "abc".to_string(),
            user_agent_mobile: "mobile".to_string(),
            user_agent_model: "don't know".to_string(),
            os_name: "MacOS".to_string(),
            os_version: "latest".to_string(),
            screen_width: 1024,
            screen_height: 768,
            screen_density: 2.0_f32.to_string(),
            continent: "Europe".to_string(),
            country_code: "FR".to_string(),
            country_name: "France".to_string(),
            region: "West Europe".to_string(),
        },
        campaign: Campaign {
            name: "random".to_string(),
            source: "random".to_string(),
            medium: "random".to_string(),
            term: "random".to_string(),
            content: "random".to_string(),
            creative_format: "random".to_string(),
            marketing_tactic: "random".to_string(),
        },
        session: Session {
            session_id: "random".to_string(),
            previous_session_id: "random".to_string(),
            session_count: 2,
            session_start,
            first_seen: 123,
            last_seen: 123,
        },
    }
}

fn sample_page_data() -> PageData {
    PageData {
        name: "page name".to_string(),
        category: "category".to_string(),
        keywords: vec!["value1".to_string(), "value2".into()],
        title: "page title".to_string(),
        url: "https://example.com/full-url?test=1".to_string(),
        path: "/full-path".to_string(),
        search: "?test=1".to_string(),
        referrer: "https://example.com/another-page".to_string(),
        properties: vec![
            ("prop1".to_string(), "value1".to_string()),
            ("prop2".to_string(), "10".to_string()),
            ("currency".to_string(), "USD".to_string()),
        ],
    }
}

fn sample_page_event(
    consent: Option<Consent>,
    edgee_id: String,
    locale: String,
    session_start: bool,
) -> Event {
    Event {
        uuid: Uuid::new_v4().to_string(),
        timestamp: 123,
        timestamp_millis: 123,
        timestamp_micros: 123,
        event_type: EventType::Page,
        data: Data::Page(sample_page_data()),
        context: sample_context(edgee_id, locale, session_start),
        consent,
    }
}

#[test]
fn user_works_fine() {
    let event = sample_page_event(
        Some(Consent::Granted),
        "edgee-123".to_string(),
        "fr-FR".to_string(),
        false,
    );

    let settings = vec![
        ("api_secret".to_string(), "abc123".to_string()),
        ("project_token".to_string(), "tok123".to_string()),
        ("region".to_string(), "api-eu".to_string()),
        ("project_id".to_string(), "123456".to_string()),
    ];
    let result = Component::user(event, settings);

    assert!(result.is_ok());
    let req = result.unwrap();
    assert!(req.url.contains("https://api-eu.mixpanel.com/engage"));
    assert!(req.body.contains("\"$token\":\"tok123\""));
    assert!(req.body.contains("\"$distinct_id\":\"123\""));
}

#[test]
fn track_works_fine() {
    let mut event = sample_page_event(
        Some(Consent::Granted),
        "edgee-456".to_string(),
        "en-GB".to_string(),
        false,
    );

    if let Data::Page(page_data) = event.data {
        event.data = Data::Track(TrackData {
            name: "Signup".to_string(),
            properties: page_data.properties.clone(),
            products: vec![],
        });
    }

    let settings = vec![
        ("api_secret".to_string(), "abc123".to_string()),
        ("project_token".to_string(), "tok123".to_string()),
        ("region".to_string(), "api".to_string()),
        ("project_id".to_string(), "7891011".to_string()),
    ];
    let result = Component::track(event, settings);

    assert!(result.is_ok());
    let req = result.unwrap();
    assert!(req.url.contains("https://api.mixpanel.com/import"));
    assert!(req.url.contains("project_id=7891011"));
    assert!(req.body.contains("\"event\":\"Signup\""));
    assert!(req.body.contains("\"token\":\"abc123\""));
}

#[test]
fn page_works_fine() {
    let event = sample_page_event(
        Some(Consent::Granted),
        "edgee-789".to_string(),
        "fr".to_string(),
        true,
    );

    let settings = vec![
        ("api_secret".to_string(), "abc123".to_string()),
        ("project_token".to_string(), "tok123".to_string()),
        ("region".to_string(), "api-in".to_string()),
        ("project_id".to_string(), "987654".to_string()),
    ];
    let result = Component::page(event, settings);

    assert!(result.is_ok());
    let req = result.unwrap();
    assert!(req.url.contains("https://api-in.mixpanel.com/import"));
    assert!(req.url.contains("project_id=987654"));
    assert!(req.body.contains("\"event\":\"Page View\""));
    assert!(req.body.contains("\"token\":\"abc123\""));
    assert!(req.body.contains("\"url\""));
}

fn canonical_settings(region: &str, project_id: &str) -> Vec<(String, String)> {
    vec![
        ("api_secret".to_string(), "abc123".to_string()),
        ("project_token".to_string(), "tok123".to_string()),
        ("region".to_string(), region.to_string()),
        ("project_id".to_string(), project_id.to_string()),
    ]
}

fn legacy_settings() -> Vec<(String, String)> {
    vec![("mixpanel_token".to_string(), "token789".to_string())]
}

fn sample_track_event(name: &str) -> Event {
    let mut event = sample_page_event(
        Some(Consent::Granted),
        "edgee-456".to_string(),
        "en-GB".to_string(),
        false,
    );
    event.event_type = EventType::Track;
    event.data = Data::Track(TrackData {
        name: name.to_string(),
        properties: vec![("plan".to_string(), "pro".to_string())],
        products: vec![],
    });
    event
}

fn sample_user_event() -> Event {
    let mut event = sample_page_event(
        Some(Consent::Granted),
        "edgee-123".to_string(),
        "fr-FR".to_string(),
        false,
    );
    event.event_type = EventType::User;
    event.data = Data::User(sample_user_data("edgee-123".to_string()));
    event
}

fn json(body: &str) -> serde_json::Value {
    serde_json::from_str(body).unwrap()
}

#[test]
fn page_event_in_a_region() {
    let event = sample_page_event(None, "edgee-789".to_string(), "fr".to_string(), true);
    let request = Component::page(event, canonical_settings("api-eu", "123456")).unwrap();
    assert!(request.url.starts_with("https://api-eu.mixpanel.com/import?strict=1"));
    assert!(request.url.contains("&project_id=123456"));
    assert_eq!(request.url, "https://api-eu.mixpanel.com/import?strict=1&project_id=123456");
    assert!(request.body.contains("\"event\":\"Page View\""));
    let body = json(&request.body);
    assert_eq!(body[0]["properties"]["token"], "abc123");
    assert!(!request.forward_client_headers);
}

#[test]
fn track_event_with_a_project_id() {
    let request =
        Component::track(sample_track_event("Signup"), canonical_settings("api", "7891011"))
            .unwrap();
    assert!(request.url.contains("project_id=7891011"));
    assert!(request.body.contains("\"event\":\"Signup\""));
    let body = json(&request.body);
    assert_eq!(body[0]["event"], "Signup");
    assert_eq!(body[0]["properties"]["plan"], "pro");
}

#[test]
fn user_event_updates_the_profile() {
    for region in ["api", "api-eu", "api-in"] {
        let request =
            Component::user(sample_user_event(), canonical_settings(region, "123456")).unwrap();
        let body = json(&request.body);
        assert_eq!(body[0]["$distinct_id"], "123");
        assert_eq!(body[0]["$token"], "tok123");
        assert_eq!(request.url, format!("https://{}.mixpanel.com/engage", region));
        assert!(request.forward_client_headers);
    }
}

#[test]
fn one_token_for_every_kind() {
    let page = Component::page(
        sample_page_event(None, "edgee-1".to_string(), "fr".to_string(), true),
        legacy_settings(),
    )
    .unwrap();
    let track = Component::track(sample_track_event("Signup"), legacy_settings()).unwrap();
    let user = Component::user(sample_user_event(), legacy_settings()).unwrap();
    for request in [&page, &track, &user] {
        assert_eq!(request.url, "https://api.mixpanel.com/track");
        let body = json(&request.body);
        assert_eq!(body[0]["properties"]["token"], "token789");
        assert!(request.headers.iter().any(|(n, v)| n == "Accept" && v == "text/plain"));
        assert!(request.headers.iter().all(|(n, _)| n != "Authorization"));
    }
    assert_eq!(json(&page.body)[0]["event"], "Page View");
    assert_eq!(json(&track.body)[0]["event"], "Signup");
    assert_eq!(json(&user.body)[0]["event"], "User");
}

#[test]
fn page_requires_a_page_payload() {
    let error =
        Component::page(sample_track_event("Signup"), canonical_settings("api", "1")).unwrap_err();
    assert_eq!(error, "Invalid event type for page");
    let error = Component::page(sample_user_event(), legacy_settings()).unwrap_err();
    assert_eq!(error, "Invalid event type for page");
}

#[test]
fn track_requires_a_track_payload() {
    let event = sample_page_event(None, "edgee-1".to_string(), "fr".to_string(), true);
    let error = Component::track(event, canonical_settings("api", "1")).unwrap_err();
    assert_eq!(error, "Invalid event type for track");
}

#[test]
fn user_takes_any_payload() {
    let page = sample_page_event(None, "edgee-1".to_string(), "fr".to_string(), true);
    assert!(Component::user(page, canonical_settings("api", "1")).is_ok());
    assert!(Component::user(sample_track_event("x"), canonical_settings("api", "1")).is_ok());
    assert!(Component::user(sample_user_event(), canonical_settings("api", "1")).is_ok());
}

#[test]
fn settings_are_checked_before_the_payload() {
    let no_secret = vec![("project_token".to_string(), "tok123".to_string())];
    let error = Component::page(sample_track_event("Signup"), no_secret.clone()).unwrap_err();
    assert_eq!(error, "Missing or empty 'api_secret' setting");
    let error = Component::track(sample_user_event(), no_secret.clone()).unwrap_err();
    assert_eq!(error, "Missing or empty 'api_secret' setting");
    let error = Component::user(sample_user_event(), no_secret).unwrap_err();
    assert_eq!(error, "Missing or empty 'api_secret' setting");

    let no_token = vec![("api_secret".to_string(), "abc123".to_string())];
    let error = Component::user(sample_user_event(), no_token).unwrap_err();
    assert_eq!(error, "Missing or empty 'project_token' setting");

    let blank_legacy = vec![("mixpanel_token".to_string(), " ".to_string())];
    let error = Component::track(sample_track_event("x"), blank_legacy).unwrap_err();
    assert_eq!(error, "Missing or empty 'mixpanel_token' setting");
}

#[test]
fn distinct_id_falls_back_in_both_builders() {
    let mut event = sample_track_event("Signup");
    event.context.user.user_id = "  ".to_string();
    let request = Component::track(event, canonical_settings("api", "1")).unwrap();
    assert_eq!(json(&request.body)[0]["properties"]["distinct_id"], "edgee-456");

    let mut event = sample_user_event();
    event.context.user.user_id = "".to_string();
    let request = Component::user(event, canonical_settings("api", "1")).unwrap();
    let body = json(&request.body);
    assert_eq!(body[0]["$distinct_id"], "edgee-123");
    assert_eq!(body[0]["$set"]["$distinct_id"], "edgee-123");
}

#[test]
fn page_body_holds_the_whole_bag() {
    let mut event = sample_page_event(None, "edgee-789".to_string(), "fr".to_string(), true);
    event.uuid = "fixed-id".to_string();
    if let Data::Page(page) = &mut event.data {
        page.url = "https://payload.example".to_string();
        page.title = "payload title".to_string();
    }
    event.context.page.title = "".to_string();
    event.context.client.city = " ".to_string();
    let request = Component::page(event, canonical_settings("api", "1")).unwrap();
    let body = json(&request.body);
    let properties = body[0]["properties"].as_object().unwrap();
    let expected = [
        ("$insert_id", "fixed-id"),
        ("campaign_content", "random"),
        ("campaign_creative_format", "random"),
        ("campaign_marketing_tactic", "random"),
        ("campaign_medium", "random"),
        ("campaign_name", "random"),
        ("campaign_source", "random"),
        ("campaign_term", "random"),
        ("category", "category"),
        ("continent", "Europe"),
        ("country_code", "FR"),
        ("country_name", "France"),
        ("currency", "USD"),
        ("distinct_id", "123"),
        ("first_seen", "123"),
        ("ip", "192.168.0.1"),
        ("keywords", "[\"value1\",\"value2\"]"),
        ("last_seen", "123"),
        ("locale", "fr"),
        ("name", "page name"),
        ("os_name", "MacOS"),
        ("os_version", "latest"),
        ("path", "/full-path"),
        ("previous_session_id", "random"),
        ("prop1", "value1"),
        ("prop2", "10"),
        ("referrer", "https://example.com/another-page"),
        ("region", "West Europe"),
        ("screen_density", "2"),
        ("screen_height", "768"),
        ("screen_width", "1024"),
        ("session_count", "2"),
        ("session_id", "random"),
        ("session_start", "true"),
        ("timezone", "CET"),
        ("title", "payload title"),
        ("token", "abc123"),
        ("url", "https://example.com/full-url?test=1"),
        ("user_agent", "Chrome"),
        ("user_agent_architecture", "x86"),
        ("user_agent_bitness", "64"),
        ("user_agent_full_version_list", "abc"),
        ("user_agent_mobile", "mobile"),
        ("user_agent_model", "don't know"),
        ("user_agent_version_list", "abc"),
    ];
    for (key, value) in expected {
        assert_eq!(properties.get(key).and_then(|v| v.as_str()), Some(value), "{}", key);
    }
    assert_eq!(properties["time"], 123);
    assert_eq!(properties.len(), expected.len() + 1);
    assert!(!properties.contains_key("city"));
}

#[test]
fn user_body_holds_the_identifier_and_the_address() {
    let mut event = sample_user_event();
    event.context.user.properties.push(("$ip".to_string(), "".to_string()));
    let request = Component::user(event, canonical_settings("api", "1")).unwrap();
    let body = json(&request.body);
    let set = body[0]["$set"].as_object().unwrap();
    assert_eq!(set["$distinct_id"], "123");
    assert_eq!(set["$ip"], "192.168.0.1");
    assert_eq!(set["ip"], "192.168.0.1");
    assert_eq!(set["prop1"], "value1");
    assert_eq!(set["prop2"], "10");
    assert_eq!(set["url"], "https://example.com/full-url?test=1");
    assert_eq!(body[0].as_object().unwrap().len(), 3);
}
