//! The three entry points: one per kind of event.

use crate::bag::PropertyBag;
use crate::enrich::{
    campaign_enriched, client_enriched, enrich_with_campaign_context, enrich_with_client_context,
    enrich_with_page_context, enrich_with_session_context, insert_all_nonempty, keywords_json,
    page_enriched, put_all_nonblank, session_enriched,
};
use crate::event::{
    Context, ContextView, Data, DataView, Dict, EdgeeRequest, EdgeeRequestView, Event, EventView,
    PageDataView, TrackDataView,
};
use crate::helpers::{insert_if_nonempty, put_nonblank};
use crate::request::{
    build_legacy_request, build_mixpanel_request, build_mixpanel_user_request, distinct_id,
    engage_request, import_outcome, legacy_request, outcome_view, resolve_distinct_id,
};
use crate::settings::{configuration, Configuration, ConfigurationView};
use vstd::prelude::*;

verus! {

/// The destination. It keeps nothing between calls.
pub struct Component;

/// The bag after the four blocks of the context were written to it: page,
/// campaign, session, client, in this order.
pub open spec fn context_enriched(
    bag: Map<Seq<char>, Seq<char>>,
    context: ContextView,
) -> Map<Seq<char>, Seq<char>> {
    let bag = page_enriched(bag, context.page, keywords_json(context.page.keywords));
    let bag = campaign_enriched(bag, context.campaign);
    let bag = session_enriched(bag, context.session);
    client_enriched(bag, context.client)
}

/// The bag of a page event before the context is written: the page's own
/// texts and properties.
pub open spec fn page_seed(data: PageDataView) -> Map<Seq<char>, Seq<char>> {
    let bag = put_nonblank(Map::empty(), "url"@, data.url);
    let bag = put_nonblank(bag, "title"@, data.title);
    let bag = put_nonblank(bag, "path"@, data.path);
    let bag = put_nonblank(bag, "referrer"@, data.referrer);
    let bag = put_nonblank(bag, "category"@, data.category);
    let bag = put_nonblank(bag, "name"@, data.name);
    put_all_nonblank(bag, data.properties)
}

/// The bag of a track event before the context is written: its properties.
pub open spec fn track_seed(data: TrackDataView) -> Map<Seq<char>, Seq<char>> {
    put_all_nonblank(Map::empty(), data.properties)
}

/// The bag of a user event before the context is written: the identifier,
/// the client's address, and the user's properties.
pub open spec fn user_seed(context: ContextView) -> Map<Seq<char>, Seq<char>> {
    let bag = Map::empty().insert("$distinct_id"@, distinct_id(context.user));
    let bag = put_nonblank(bag, "$ip"@, context.client.ip);
    put_all_nonblank(bag, context.user.properties)
}

/// The name under which the older convention delivers what is known of a user.
pub open spec fn user_event() -> Seq<char> {
    "User"@
}

/// The name under which a page event is delivered.
pub open spec fn page_view() -> Seq<char> {
    "Page View"@
}

/// The text of the error for an event that is no page event.
pub open spec fn not_a_page() -> Seq<char> {
    "Invalid event type for page"@
}

/// The text of the error for an event that is no track event.
pub open spec fn not_a_track() -> Seq<char> {
    "Invalid event type for track"@
}

/// What `page` returns.
pub open spec fn page_outcome(event: EventView, dict: Seq<(Seq<char>, Seq<char>)>) -> Result<
    EdgeeRequestView,
    Seq<char>,
> {
    match configuration(dict) {
        Err(error) => Err(error.text()),
        Ok(configuration) => match event.data {
            DataView::Page(data) => {
                let bag = context_enriched(page_seed(data), event.context);
                match configuration {
                    ConfigurationView::Import(settings) => import_outcome(
                        event,
                        settings,
                        page_view(),
                        bag,
                    ),
                    ConfigurationView::Legacy(settings) => Ok(
                        legacy_request(event, settings, page_view(), bag),
                    ),
                }
            },
            _ => Err(not_a_page()),
        },
    }
}

/// What `track` returns.
pub open spec fn track_outcome(event: EventView, dict: Seq<(Seq<char>, Seq<char>)>) -> Result<
    EdgeeRequestView,
    Seq<char>,
> {
    match configuration(dict) {
        Err(error) => Err(error.text()),
        Ok(configuration) => match event.data {
            DataView::Track(data) => {
                let bag = context_enriched(track_seed(data), event.context);
                match configuration {
                    ConfigurationView::Import(settings) => import_outcome(
                        event,
                        settings,
                        data.name,
                        bag,
                    ),
                    ConfigurationView::Legacy(settings) => Ok(
                        legacy_request(event, settings, data.name, bag),
                    ),
                }
            },
            _ => Err(not_a_track()),
        },
    }
}

/// What `user` returns.
pub open spec fn user_outcome(event: EventView, dict: Seq<(Seq<char>, Seq<char>)>) -> Result<
    EdgeeRequestView,
    Seq<char>,
> {
    match configuration(dict) {
        Err(error) => Err(error.text()),
        Ok(configuration) => {
            let bag = context_enriched(user_seed(event.context), event.context);
            match configuration {
                ConfigurationView::Import(settings) => Ok(
                    engage_request(settings, distinct_id(event.context.user), bag),
                ),
                ConfigurationView::Legacy(settings) => Ok(
                    legacy_request(event, settings, user_event(), bag),
                ),
            }
        },
    }
}

/// Writes the four blocks of the context: page, campaign, session, client.
pub fn enrich_with_context(props: &mut PropertyBag, context: &Context)
    ensures
        final(props)@ == context_enriched(old(props)@, context@),
{
    enrich_with_page_context(props, &context.page);
    enrich_with_campaign_context(props, &context.campaign);
    enrich_with_session_context(props, &context.session);
    enrich_with_client_context(props, &context.client);
}

impl Component {
    /// Maps a page event to the request that delivers it as `Page View`.
    /// Settings are checked first; then the event must carry a page. The
    /// configured convention decides where the request goes.
    pub fn page(edgee_event: Event, settings_dict: Dict) -> (outcome: Result<EdgeeRequest, String>)
        ensures
            outcome_view(outcome) == page_outcome(edgee_event@, settings_dict.deep_view()),
    {
        let configuration = match Configuration::new(settings_dict) {
            Ok(configuration) => configuration,
            Err(error) => {
                return Err(error.message());
            },
        };
        let mut props = PropertyBag::new();
        match &edgee_event.data {
            Data::Page(data) => {
                insert_if_nonempty(&mut props, "url", data.url.as_str());
                insert_if_nonempty(&mut props, "title", data.title.as_str());
                insert_if_nonempty(&mut props, "path", data.path.as_str());
                insert_if_nonempty(&mut props, "referrer", data.referrer.as_str());
                insert_if_nonempty(&mut props, "category", data.category.as_str());
                insert_if_nonempty(&mut props, "name", data.name.as_str());
                insert_all_nonempty(&mut props, &data.properties);
                enrich_with_context(&mut props, &edgee_event.context);
                match &configuration {
                    Configuration::Import(settings) => build_mixpanel_request(
                        &edgee_event,
                        settings,
                        "Page View",
                        props,
                    ),
                    Configuration::Legacy(settings) => build_legacy_request(
                        &edgee_event,
                        settings,
                        "Page View",
                        props,
                    ),
                }
            },
            _ => Err("Invalid event type for page".to_string()),
        }
    }

    /// Maps a track event to the request that delivers it under its own name.
    /// Settings are checked first; then the event must carry a track payload.
    /// The configured convention decides where the request goes.
    pub fn track(edgee_event: Event, settings_dict: Dict) -> (outcome: Result<EdgeeRequest, String>)
        ensures
            outcome_view(outcome) == track_outcome(edgee_event@, settings_dict.deep_view()),
    {
        let configuration = match Configuration::new(settings_dict) {
            Ok(configuration) => configuration,
            Err(error) => {
                return Err(error.message());
            },
        };
        let mut props = PropertyBag::new();
        match &edgee_event.data {
            Data::Track(data) => {
                insert_all_nonempty(&mut props, &data.properties);
                enrich_with_context(&mut props, &edgee_event.context);
                match &configuration {
                    Configuration::Import(settings) => build_mixpanel_request(
                        &edgee_event,
                        settings,
                        data.name.as_str(),
                        props,
                    ),
                    Configuration::Legacy(settings) => build_legacy_request(
                        &edgee_event,
                        settings,
                        data.name.as_str(),
                        props,
                    ),
                }
            },
            _ => Err("Invalid event type for track".to_string()),
        }
    }

    /// Maps any event to the request that updates the profile of its user.
    /// Only the context is read, whatever the event carries. The older
    /// convention has no profile updates: there the same bag is delivered as
    /// an event named `User`.
    pub fn user(edgee_event: Event, settings_dict: Dict) -> (outcome: Result<EdgeeRequest, String>)
        ensures
            outcome_view(outcome) == user_outcome(edgee_event@, settings_dict.deep_view()),
    {
        let configuration = match Configuration::new(settings_dict) {
            Ok(configuration) => configuration,
            Err(error) => {
                return Err(error.message());
            },
        };
        let user = &edgee_event.context.user;
        let client = &edgee_event.context.client;
        let distinct_id = resolve_distinct_id(user);
        let mut props = PropertyBag::new();
        props.insert("$distinct_id".to_string(), distinct_id.clone());
        insert_if_nonempty(&mut props, "$ip", client.ip.as_str());
        insert_all_nonempty(&mut props, &user.properties);
        enrich_with_context(&mut props, &edgee_event.context);
        match &configuration {
            Configuration::Import(settings) => build_mixpanel_user_request(
                settings,
                distinct_id,
                props,
            ),
            Configuration::Legacy(settings) => build_legacy_request(
                &edgee_event,
                settings,
                "User",
                props,
            ),
        }
    }
}

} // verus!
