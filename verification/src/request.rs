//! The two request builders: one for events, one for profile updates.

use crate::bag::{entries_map, PropertyBag};
use crate::encoding::{base64_encode, base64_fits, base64_standard};
use crate::event::{
    Dict, EdgeeRequest, EdgeeRequestView, Event, EventView, HttpMethod, UserData, UserDataView,
};
use crate::helpers::{endpoint_text, mixpanel_endpoint};
use crate::json::{
    json_array, json_integer, json_members, json_model, json_object, json_object_insert,
    json_object_new, json_string, json_text, json_to_string, no_members, text_members, Json,
};
use crate::settings::{LegacySettings, LegacySettingsView, Settings, SettingsView};
use crate::text::{blank, is_blank};
use vstd::prelude::*;
use vstd::utf8::encode_utf8;

verus! {

/// The identifier under which the destination files what a user does: the
/// `user_id`, or the host's `edgee_id` where the `user_id` is blank.
pub open spec fn distinct_id(user: UserDataView) -> Seq<char> {
    if blank(user.user_id) {
        user.edgee_id
    } else {
        user.user_id
    }
}

/// The address that events go to: the import endpoint of the region, strict,
/// with the project's identifier where one is configured.
pub open spec fn import_url(settings: SettingsView) -> Seq<char> {
    let url = endpoint_text(settings.region) + "/import?strict=1"@;
    match settings.project_id {
        Some(id) => url + "&project_id="@ + id,
        None => url,
    }
}

/// The address that profile updates go to.
pub open spec fn engage_url(settings: SettingsView) -> Seq<char> {
    endpoint_text(settings.region) + "/engage"@
}

/// The secret is short enough to be encoded for the `Authorization` header.
pub open spec fn encodable(secret: Seq<char>) -> bool {
    base64_fits(encode_utf8(secret + ":"@).len())
}

/// The value of the `Authorization` header: basic authentication with the
/// secret as the user and no password.
pub open spec fn basic_authorization(secret: Seq<char>) -> Seq<char> {
    "Basic "@ + base64_standard(encode_utf8(secret + ":"@))
}

/// The members of an event's `properties`: the bag, then the four reserved
/// members, which replace what the bag held under their names.
pub open spec fn event_members(
    bag: Map<Seq<char>, Seq<char>>,
    token: Seq<char>,
    event: EventView,
) -> Map<Seq<char>, Json> {
    text_members(bag).insert("token"@, Json::Text(token)).insert(
        "distinct_id"@,
        Json::Text(distinct_id(event.context.user)),
    ).insert("time"@, Json::Integer(event.timestamp as int)).insert(
        "$insert_id"@,
        Json::Text(event.uuid),
    )
}

/// The document for one event: a list of one object.
pub open spec fn event_document(name: Seq<char>, members: Map<Seq<char>, Json>) -> Json {
    Json::List(
        seq![
            Json::Object(
                no_members().insert("event"@, Json::Text(name)).insert(
                    "properties"@,
                    Json::Object(members),
                ),
            ),
        ],
    )
}

/// The document for one profile update: a list of one object.
pub open spec fn engage_document(
    distinct_id: Seq<char>,
    project_token: Seq<char>,
    bag: Map<Seq<char>, Seq<char>>,
) -> Json {
    Json::List(
        seq![
            Json::Object(
                no_members().insert("$distinct_id"@, Json::Text(distinct_id)).insert(
                    "$token"@,
                    Json::Text(project_token),
                ).insert("$set"@, Json::Object(text_members(bag))),
            ),
        ],
    )
}

/// The request for an event, given the header value and the body.
pub open spec fn import_request_of(
    settings: SettingsView,
    authorization: Seq<char>,
    body: Seq<char>,
) -> EdgeeRequestView {
    EdgeeRequestView {
        method: HttpMethod::Post,
        url: import_url(settings),
        headers: seq![
            ("Content-Type"@, "application/json"@),
            ("Accept"@, "application/json"@),
            ("Authorization"@, authorization),
        ],
        body,
        forward_client_headers: false,
    }
}

/// The request for a profile update, given the body.
pub open spec fn engage_request_of(settings: SettingsView, body: Seq<char>) -> EdgeeRequestView {
    EdgeeRequestView {
        method: HttpMethod::Post,
        url: engage_url(settings),
        headers: seq![("Content-Type"@, "application/json"@), ("Accept"@, "application/json"@)],
        body,
        forward_client_headers: true,
    }
}

/// The request that delivers an event.
pub open spec fn import_request(
    event: EventView,
    settings: SettingsView,
    name: Seq<char>,
    bag: Map<Seq<char>, Seq<char>>,
) -> EdgeeRequestView {
    import_request_of(
        settings,
        basic_authorization(settings.api_secret),
        json_text(event_document(name, event_members(bag, settings.api_secret, event))),
    )
}

/// The address that events go to under the older convention.
pub open spec fn track_url() -> Seq<char> {
    "https://api.mixpanel.com/track"@
}

/// The request for an event under the older convention, given the body.
pub open spec fn legacy_request_of(body: Seq<char>) -> EdgeeRequestView {
    EdgeeRequestView {
        method: HttpMethod::Post,
        url: track_url(),
        headers: seq![("Content-Type"@, "application/json"@), ("Accept"@, "text/plain"@)],
        body,
        forward_client_headers: false,
    }
}

/// The request that delivers an event under the older convention.
pub open spec fn legacy_request(
    event: EventView,
    settings: LegacySettingsView,
    name: Seq<char>,
    bag: Map<Seq<char>, Seq<char>>,
) -> EdgeeRequestView {
    legacy_request_of(
        json_text(event_document(name, event_members(bag, settings.mixpanel_token, event))),
    )
}

/// The request that delivers a profile update.
pub open spec fn engage_request(
    settings: SettingsView,
    distinct_id: Seq<char>,
    bag: Map<Seq<char>, Seq<char>>,
) -> EdgeeRequestView {
    engage_request_of(
        settings,
        json_text(engage_document(distinct_id, settings.project_token, bag)),
    )
}

/// The text of the error for a secret that is too long to be encoded.
pub open spec fn secret_too_long() -> Seq<char> {
    "The 'api_secret' setting is too long"@
}

/// What a builder returned, by the view of the request.
pub open spec fn outcome_view(outcome: Result<EdgeeRequest, String>) -> Result<
    EdgeeRequestView,
    Seq<char>,
> {
    match outcome {
        Ok(request) => Ok(request@),
        Err(message) => Err(message@),
    }
}

/// What the event builder returns.
pub open spec fn import_outcome(
    event: EventView,
    settings: SettingsView,
    name: Seq<char>,
    bag: Map<Seq<char>, Seq<char>>,
) -> Result<EdgeeRequestView, Seq<char>> {
    if encodable(settings.api_secret) {
        Ok(import_request(event, settings, name, bag))
    } else {
        Err(secret_too_long())
    }
}

/// The identifier under which the destination files what `user` does.
pub fn resolve_distinct_id(user: &UserData) -> (id: String)
    ensures
        id@ == distinct_id(user@),
{
    if is_blank(user.user_id.as_str()) {
        user.edgee_id.clone()
    } else {
        user.user_id.clone()
    }
}

/// The value of the `Authorization` header for `secret`, or `None` where the
/// secret is too long to be encoded.
pub fn authorization_header(secret: &str) -> (value: Option<String>)
    ensures
        match value {
            Some(text) => encodable(secret@) && text@ == basic_authorization(secret@),
            None => !encodable(secret@),
        },
{
    let mut credentials = secret.to_string();
    credentials.append(":");
    let bytes = credentials.as_str().as_bytes();
    if bytes.len() / 3 <= (isize::MAX as usize - 4) / 4 {
        let mut value = "Basic ".to_string();
        value.append(base64_encode(bytes).as_str());
        Some(value)
    } else {
        None
    }
}

fn header(name: &str, value: String) -> (pair: (String, String))
    ensures
        pair.deep_view() == (name@, value@),
{
    (name.to_string(), value)
}

fn json_members_of(bag: &PropertyBag) -> (object: serde_json::Map<String, serde_json::Value>)
    ensures
        json_members(object) == text_members(bag@),
{
    let entries = bag.entries();
    let ghost all = entries.deep_view();
    let mut object = json_object_new();
    let mut i: usize = 0;
    proof {
        assert(text_members(entries_map(all.take(0))) =~= no_members());
    }
    while i < entries.len()
        invariant
            i <= entries.len(),
            all == entries.deep_view(),
            json_members(object) == text_members(entries_map(all.take(i as int))),
        decreases entries.len() - i,
    {
        let ghost before = entries_map(all.take(i as int));
        json_object_insert(&mut object, entries[i].0.clone(), json_string(entries[i].1.clone()));
        proof {
            assert(all.take(i + 1).drop_last() =~= all.take(i as int));
            assert(text_members(before.insert(all[i as int].0, all[i as int].1)) =~= text_members(
                before,
            ).insert(all[i as int].0, Json::Text(all[i as int].1)));
        }
        i = i + 1;
    }
    proof {
        assert(all.take(i as int) =~= all);
    }
    object
}

fn json_list_of_one(object: serde_json::Map<String, serde_json::Value>) -> (list: serde_json::Value)
    ensures
        json_model(list) == Json::List(seq![Json::Object(json_members(object))]),
{
    let mut items: Vec<serde_json::Value> = Vec::new();
    let ghost members = json_members(object);
    items.push(json_object(object));
    let list = json_array(items);
    proof {
        assert(items@.map_values(|item: serde_json::Value| json_model(item)) =~= seq![
            Json::Object(members),
        ]);
    }
    list
}

fn event_body(event: &Event, token: &String, name: &str, properties: &PropertyBag) -> (body: String)
    ensures
        body@ == json_text(event_document(name@, event_members(properties@, token@, event@))),
{
    let mut members = json_members_of(properties);
    json_object_insert(&mut members, "token".to_string(), json_string(token.clone()));
    json_object_insert(
        &mut members,
        "distinct_id".to_string(),
        json_string(resolve_distinct_id(&event.context.user)),
    );
    json_object_insert(&mut members, "time".to_string(), json_integer(event.timestamp));
    json_object_insert(&mut members, "$insert_id".to_string(), json_string(event.uuid.clone()));
    let mut object = json_object_new();
    json_object_insert(&mut object, "event".to_string(), json_string(name.to_string()));
    json_object_insert(&mut object, "properties".to_string(), json_object(members));
    let list = json_list_of_one(object);
    json_to_string(&list)
}

fn engage_body(settings: &Settings, distinct_id: String, properties: &PropertyBag) -> (body: String)
    ensures
        body@ == json_text(engage_document(distinct_id@, settings.project_token@, properties@)),
{
    let members = json_members_of(properties);
    let mut object = json_object_new();
    json_object_insert(&mut object, "$distinct_id".to_string(), json_string(distinct_id));
    json_object_insert(
        &mut object,
        "$token".to_string(),
        json_string(settings.project_token.clone()),
    );
    json_object_insert(&mut object, "$set".to_string(), json_object(members));
    let list = json_list_of_one(object);
    json_to_string(&list)
}

/// Puts the request for an event together from the header value and the body.
pub fn assemble_import_request(
    settings: &Settings,
    authorization: String,
    body: String,
) -> (request: EdgeeRequest)
    ensures
        request@ == import_request_of(settings@, authorization@, body@),
{
    let mut url = mixpanel_endpoint(settings.region.as_str());
    url.append("/import?strict=1");
    match &settings.project_id {
        Some(id) => {
            url.append("&project_id=");
            url.append(id.as_str());
        },
        None => {},
    }
    let mut headers: Dict = Vec::new();
    headers.push(header("Content-Type", "application/json".to_string()));
    headers.push(header("Accept", "application/json".to_string()));
    headers.push(header("Authorization", authorization));
    let request = EdgeeRequest {
        method: HttpMethod::Post,
        url,
        headers,
        body,
        forward_client_headers: false,
    };
    proof {
        assert(request@.headers =~= import_request_of(settings@, authorization@, body@).headers);
        assert(request@.url =~= import_url(settings@));
    }
    request
}

/// Puts the request for a profile update together from the body.
pub fn assemble_engage_request(settings: &Settings, body: String) -> (request: EdgeeRequest)
    ensures
        request@ == engage_request_of(settings@, body@),
{
    let mut url = mixpanel_endpoint(settings.region.as_str());
    url.append("/engage");
    let mut headers: Dict = Vec::new();
    headers.push(header("Content-Type", "application/json".to_string()));
    headers.push(header("Accept", "application/json".to_string()));
    let request = EdgeeRequest {
        method: HttpMethod::Post,
        url,
        headers,
        body,
        forward_client_headers: true,
    };
    proof {
        assert(request@.headers =~= engage_request_of(settings@, body@).headers);
    }
    request
}

/// Builds the request that delivers an event under `name` with the bag as its
/// properties. The reserved members `token`, `distinct_id`, `time` and
/// `$insert_id` win over properties of the same names. The host must not add
/// the client's headers to this request.
pub fn build_mixpanel_request(
    event: &Event,
    settings: &Settings,
    name: &str,
    properties: PropertyBag,
) -> (outcome: Result<EdgeeRequest, String>)
    ensures
        outcome_view(outcome) == import_outcome(event@, settings@, name@, properties@),
{
    match authorization_header(settings.api_secret.as_str()) {
        Some(authorization) => {
            let body = event_body(event, &settings.api_secret, name, &properties);
            Ok(assemble_import_request(settings, authorization, body))
        },
        None => Err("The 'api_secret' setting is too long".to_string()),
    }
}

/// Puts the request for an event under the older convention together from
/// the body.
pub fn assemble_legacy_request(body: String) -> (request: EdgeeRequest)
    ensures
        request@ == legacy_request_of(body@),
{
    let mut headers: Dict = Vec::new();
    headers.push(header("Content-Type", "application/json".to_string()));
    headers.push(header("Accept", "text/plain".to_string()));
    let request = EdgeeRequest {
        method: HttpMethod::Post,
        url: "https://api.mixpanel.com/track".to_string(),
        headers,
        body,
        forward_client_headers: false,
    };
    proof {
        assert(request@.headers =~= legacy_request_of(body@).headers);
    }
    request
}

/// Builds the request that delivers an event under the older convention: to
/// the classic `/track` endpoint, with the one token as the reserved member
/// `token` and no `Authorization` header. The reserved members win over
/// properties of the same names, and the host must not add the client's
/// headers.
pub fn build_legacy_request(
    event: &Event,
    settings: &LegacySettings,
    name: &str,
    properties: PropertyBag,
) -> (outcome: Result<EdgeeRequest, String>)
    ensures
        outcome_view(outcome) == Ok::<EdgeeRequestView, Seq<char>>(
            legacy_request(event@, settings@, name@, properties@),
        ),
{
    let body = event_body(event, &settings.mixpanel_token, name, &properties);
    Ok(assemble_legacy_request(body))
}

/// Builds the request that sets the bag on the profile of `distinct_id`. The
/// host adds the client's headers to this request.
pub fn build_mixpanel_user_request(
    settings: &Settings,
    distinct_id: String,
    props: PropertyBag,
) -> (outcome: Result<EdgeeRequest, String>)
    ensures
        outcome_view(outcome) == Ok::<EdgeeRequestView, Seq<char>>(
            engage_request(settings@, distinct_id@, props@),
        ),
{
    let body = engage_body(settings, distinct_id, &props);
    Ok(assemble_engage_request(settings, body))
}

} // verus!
