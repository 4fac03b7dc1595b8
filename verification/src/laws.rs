//! What holds of the bag that the enrichers fill, and of the settings and
//! documents around it, stated for every input.

use crate::bag::entries_map;
use crate::component::{
    context_enriched, page_outcome, page_seed, track_outcome, user_outcome, user_seed,
};
use crate::enrich::{
    campaign_enriched, client_enriched, keywords_json, page_enriched, put_all_nonblank,
    session_enriched,
};
use crate::event::{
    CampaignView, ClientView, ContextView, EdgeeRequestView, EventView, PageDataView,
    SessionView, UserDataView,
};
use crate::helpers::put_nonblank;
use crate::json::{json_of_strings, text_members, Json};
use crate::request::{distinct_id, encodable, engage_document, engage_request, event_members};
use crate::settings::{
    configuration, configured, default_region, legacy_shape, required, resolve,
    ConfigurationError, ConfigurationView, SettingsView,
};
use crate::text::{blank, bool_text, decimal_text};
use vstd::prelude::*;

verus! {

/// The value is in the bag under the key.
pub open spec fn holds(bag: Map<Seq<char>, Seq<char>>, key: Seq<char>, value: Seq<char>) -> bool {
    bag.contains_key(key) && bag[key] == value
}

/// The key is in the second bag as it is in the first: absent from both, or
/// in both with one value.
#[verifier::inline]
pub open spec fn same_at(
    before: Map<Seq<char>, Seq<char>>,
    after: Map<Seq<char>, Seq<char>>,
    key: Seq<char>,
) -> bool {
    &&& after.contains_key(key) == before.contains_key(key)
    &&& before.contains_key(key) ==> after[key] == before[key]
}

/// What the write of an optional text does to its key. A text that is not
/// blank is in the bag under the key. A blank text leaves the key as it was:
/// absent where it was absent.
pub open spec fn optional_written(
    before: Map<Seq<char>, Seq<char>>,
    after: Map<Seq<char>, Seq<char>>,
    key: Seq<char>,
    value: Seq<char>,
) -> bool {
    if blank(value) {
        same_at(before, after, key)
    } else {
        holds(after, key, value)
    }
}

/// The last value offered under `key` by a list of pairs that the bag takes:
/// that of the last pair with the key whose value is not blank.
pub open spec fn last_offer(pairs: Seq<(Seq<char>, Seq<char>)>, key: Seq<char>) -> Option<
    Seq<char>,
>
    decreases pairs.len(),
{
    if pairs.len() == 0 {
        None
    } else if pairs.last().0 == key && !blank(pairs.last().1) {
        Some(pairs.last().1)
    } else {
        last_offer(pairs.drop_last(), key)
    }
}

/// What a key holds after a list of pairs was offered: the last offer, or
/// what it held before where nothing was offered under it.
#[verifier::inline]
pub open spec fn offered_or(
    before: Map<Seq<char>, Seq<char>>,
    after: Map<Seq<char>, Seq<char>>,
    pairs: Seq<(Seq<char>, Seq<char>)>,
    key: Seq<char>,
) -> bool {
    match last_offer(pairs, key) {
        Some(value) => holds(after, key, value),
        None => same_at(before, after, key),
    }
}

/// The keys that the page block writes of itself.
pub open spec fn page_key(key: Seq<char>) -> bool {
    ||| key == "url"@
    ||| key == "path"@
    ||| key == "title"@
    ||| key == "category"@
    ||| key == "name"@
    ||| key == "referrer"@
    ||| key == "keywords"@
}

/// The keys that the campaign block writes.
pub open spec fn campaign_key(key: Seq<char>) -> bool {
    ||| key == "campaign_name"@
    ||| key == "campaign_source"@
    ||| key == "campaign_medium"@
    ||| key == "campaign_term"@
    ||| key == "campaign_content"@
    ||| key == "campaign_creative_format"@
    ||| key == "campaign_marketing_tactic"@
}

/// The keys that the session block writes.
pub open spec fn session_key(key: Seq<char>) -> bool {
    ||| key == "session_id"@
    ||| key == "previous_session_id"@
    ||| key == "session_count"@
    ||| key == "session_start"@
    ||| key == "first_seen"@
    ||| key == "last_seen"@
}

/// The keys that the client block writes.
pub open spec fn client_key(key: Seq<char>) -> bool {
    ||| key == "ip"@
    ||| key == "city"@
    ||| key == "country_code"@
    ||| key == "country_name"@
    ||| key == "continent"@
    ||| key == "region"@
    ||| key == "locale"@
    ||| key == "timezone"@
    ||| key == "os_name"@
    ||| key == "os_version"@
    ||| key == "user_agent"@
    ||| key == "user_agent_architecture"@
    ||| key == "user_agent_bitness"@
    ||| key == "user_agent_full_version_list"@
    ||| key == "user_agent_version_list"@
    ||| key == "user_agent_mobile"@
    ||| key == "user_agent_model"@
    ||| key == "screen_width"@
    ||| key == "screen_height"@
    ||| key == "screen_density"@
}

/// What the campaign block says of its seven texts: each is under its key
/// exactly when it is not blank, and a blank one leaves its key as it was.
pub open spec fn campaign_texts_law(
    before: Map<Seq<char>, Seq<char>>,
    after: Map<Seq<char>, Seq<char>>,
    campaign: CampaignView,
) -> bool {
    &&& optional_written(before, after, "campaign_name"@, campaign.name)
    &&& optional_written(before, after, "campaign_source"@, campaign.source)
    &&& optional_written(before, after, "campaign_medium"@, campaign.medium)
    &&& optional_written(before, after, "campaign_term"@, campaign.term)
    &&& optional_written(before, after, "campaign_content"@, campaign.content)
    &&& optional_written(before, after, "campaign_creative_format"@, campaign.creative_format)
    &&& optional_written(before, after, "campaign_marketing_tactic"@, campaign.marketing_tactic)
}

/// What the campaign block does to a bag. Its texts go by
/// `campaign_texts_law`, and no other key is touched.
pub open spec fn campaign_law(
    before: Map<Seq<char>, Seq<char>>,
    after: Map<Seq<char>, Seq<char>>,
    campaign: CampaignView,
) -> bool {
    &&& campaign_texts_law(before, after, campaign)
    &&& forall|key: Seq<char>|
        #![trigger after.contains_key(key)]
        #![trigger after[key]]
        !campaign_key(key) ==> same_at(before, after, key)
}

/// What the session block says of what it writes. The two identifiers are
/// under their keys exactly when they are not blank; the count, the start
/// flag and the two times are there in any case, a zero and a `false` too.
pub open spec fn session_fields_law(
    before: Map<Seq<char>, Seq<char>>,
    after: Map<Seq<char>, Seq<char>>,
    session: SessionView,
) -> bool {
    &&& optional_written(before, after, "session_id"@, session.session_id)
    &&& optional_written(before, after, "previous_session_id"@, session.previous_session_id)
    &&& holds(after, "session_count"@, decimal_text(session.session_count as int))
    &&& holds(after, "session_start"@, bool_text(session.session_start))
    &&& holds(after, "first_seen"@, decimal_text(session.first_seen as int))
    &&& holds(after, "last_seen"@, decimal_text(session.last_seen as int))
}

/// What the session block does to a bag. What it writes goes by
/// `session_fields_law`, and no other key is touched.
pub open spec fn session_law(
    before: Map<Seq<char>, Seq<char>>,
    after: Map<Seq<char>, Seq<char>>,
    session: SessionView,
) -> bool {
    &&& session_fields_law(before, after, session)
    &&& forall|key: Seq<char>|
        #![trigger after.contains_key(key)]
        #![trigger after[key]]
        !session_key(key) ==> same_at(before, after, key)
}

/// What the client block says of its seventeen texts: each is under its key
/// exactly when it is not blank, and a blank one leaves its key as it was.
pub open spec fn client_texts_law(
    before: Map<Seq<char>, Seq<char>>,
    after: Map<Seq<char>, Seq<char>>,
    client: ClientView,
) -> bool {
    &&& optional_written(before, after, "ip"@, client.ip)
    &&& optional_written(before, after, "city"@, client.city)
    &&& optional_written(before, after, "country_code"@, client.country_code)
    &&& optional_written(before, after, "country_name"@, client.country_name)
    &&& optional_written(before, after, "continent"@, client.continent)
    &&& optional_written(before, after, "region"@, client.region)
    &&& optional_written(before, after, "locale"@, client.locale)
    &&& optional_written(before, after, "timezone"@, client.timezone)
    &&& optional_written(before, after, "os_name"@, client.os_name)
    &&& optional_written(before, after, "os_version"@, client.os_version)
    &&& optional_written(before, after, "user_agent"@, client.user_agent)
    &&& optional_written(before, after, "user_agent_architecture"@, client.user_agent_architecture)
    &&& optional_written(before, after, "user_agent_bitness"@, client.user_agent_bitness)
    &&& optional_written(
        before,
        after,
        "user_agent_full_version_list"@,
        client.user_agent_full_version_list,
    )
    &&& optional_written(before, after, "user_agent_version_list"@, client.user_agent_version_list)
    &&& optional_written(before, after, "user_agent_mobile"@, client.user_agent_mobile)
    &&& optional_written(before, after, "user_agent_model"@, client.user_agent_model)
}

/// The three measures of the screen are in the bag, whatever they are.
pub open spec fn client_screen_law(after: Map<Seq<char>, Seq<char>>, client: ClientView) -> bool {
    &&& holds(after, "screen_width"@, decimal_text(client.screen_width as int))
    &&& holds(after, "screen_height"@, decimal_text(client.screen_height as int))
    &&& holds(after, "screen_density"@, client.screen_density)
}

/// What the client block does to a bag. Its seventeen texts go by
/// `client_texts_law`; the three measures of the screen are there in any
/// case; no other key is touched.
pub open spec fn client_law(
    before: Map<Seq<char>, Seq<char>>,
    after: Map<Seq<char>, Seq<char>>,
    client: ClientView,
) -> bool {
    &&& client_texts_law(before, after, client)
    &&& client_screen_law(after, client)
    &&& forall|key: Seq<char>|
        #![trigger after.contains_key(key)]
        #![trigger after[key]]
        !client_key(key) ==> same_at(before, after, key)
}

/// What the page block does to one of its six texts. The page's own
/// properties are written after the texts, so an offer among them wins;
/// without one the text is under its key exactly when it is not blank.
pub open spec fn page_text_written(
    before: Map<Seq<char>, Seq<char>>,
    after: Map<Seq<char>, Seq<char>>,
    properties: Seq<(Seq<char>, Seq<char>)>,
    key: Seq<char>,
    value: Seq<char>,
) -> bool {
    match last_offer(properties, key) {
        Some(offer) => holds(after, key, offer),
        None => optional_written(before, after, key, value),
    }
}

/// What the page block does to `keywords`: an offer among the page's
/// properties wins; without one the keyword text is there if there is one,
/// else the key is as it was.
pub open spec fn page_keywords_written(
    before: Map<Seq<char>, Seq<char>>,
    after: Map<Seq<char>, Seq<char>>,
    properties: Seq<(Seq<char>, Seq<char>)>,
    keywords: Option<Seq<char>>,
) -> bool {
    match last_offer(properties, "keywords"@) {
        Some(offer) => holds(after, "keywords"@, offer),
        None => match keywords {
            Some(text) => holds(after, "keywords"@, text),
            None => same_at(before, after, "keywords"@),
        },
    }
}

/// What the page block does to a bag, key by key.
pub open spec fn page_law(
    before: Map<Seq<char>, Seq<char>>,
    after: Map<Seq<char>, Seq<char>>,
    page: PageDataView,
    keywords: Option<Seq<char>>,
) -> bool {
    &&& page_text_written(before, after, page.properties, "url"@, page.url)
    &&& page_text_written(before, after, page.properties, "path"@, page.path)
    &&& page_text_written(before, after, page.properties, "title"@, page.title)
    &&& page_text_written(before, after, page.properties, "category"@, page.category)
    &&& page_text_written(before, after, page.properties, "name"@, page.name)
    &&& page_text_written(before, after, page.properties, "referrer"@, page.referrer)
    &&& page_keywords_written(before, after, page.properties, keywords)
    &&& forall|key: Seq<char>|
        #![trigger after.contains_key(key)]
        #![trigger after[key]]
        !page_key(key) ==> offered_or(before, after, page.properties, key)
}

/// What the campaign, session and client blocks together do to the bag that
/// the page block left. What each block writes goes by its own law: the later
/// blocks do not touch it. No other key is touched.
pub open spec fn blocks_law(
    before: Map<Seq<char>, Seq<char>>,
    after: Map<Seq<char>, Seq<char>>,
    context: ContextView,
) -> bool {
    &&& campaign_texts_law(before, after, context.campaign)
    &&& session_fields_law(before, after, context.session)
    &&& client_texts_law(before, after, context.client)
    &&& client_screen_law(after, context.client)
    &&& forall|key: Seq<char>|
        #![trigger after.contains_key(key)]
        #![trigger after[key]]
        !campaign_key(key) && !session_key(key) && !client_key(key) ==> same_at(before, after, key)
}

/// What the bag of a page event holds under one of the six page keys before
/// the context is written: an offer among the payload's properties, else the
/// payload's own text where that is not blank, else nothing.
pub open spec fn page_seeded(
    seed: Map<Seq<char>, Seq<char>>,
    properties: Seq<(Seq<char>, Seq<char>)>,
    key: Seq<char>,
    value: Seq<char>,
) -> bool {
    match last_offer(properties, key) {
        Some(offer) => holds(seed, key, offer),
        None => if blank(value) {
            !seed.contains_key(key)
        } else {
            holds(seed, key, value)
        },
    }
}

/// What the bag of a page event holds before the context is written.
pub open spec fn page_seed_law(seed: Map<Seq<char>, Seq<char>>, data: PageDataView) -> bool {
    &&& page_seeded(seed, data.properties, "url"@, data.url)
    &&& page_seeded(seed, data.properties, "title"@, data.title)
    &&& page_seeded(seed, data.properties, "path"@, data.path)
    &&& page_seeded(seed, data.properties, "referrer"@, data.referrer)
    &&& page_seeded(seed, data.properties, "category"@, data.category)
    &&& page_seeded(seed, data.properties, "name"@, data.name)
}

/// Who wins a page key of a page event: the page of the context before the
/// payload, and within each the properties before the text.
pub open spec fn page_precedence(
    bag: Map<Seq<char>, Seq<char>>,
    key: Seq<char>,
    payload: Seq<char>,
    payload_properties: Seq<(Seq<char>, Seq<char>)>,
    context: Seq<char>,
    context_properties: Seq<(Seq<char>, Seq<char>)>,
) -> bool {
    match last_offer(context_properties, key) {
        Some(offer) => holds(bag, key, offer),
        None => if !blank(context) {
            holds(bag, key, context)
        } else {
            match last_offer(payload_properties, key) {
                Some(offer) => holds(bag, key, offer),
                None => if !blank(payload) {
                    holds(bag, key, payload)
                } else {
                    !bag.contains_key(key)
                },
            }
        },
    }
}

/// The character of a key at a place, a space past its end.
spec fn at(key: Seq<char>, place: int) -> char {
    if place < key.len() {
        key[place]
    } else {
        ' '
    }
}

/// The length of a key and its characters at four places. Any two keys that
/// the enrichers write differ in this, so they are different keys.
spec fn mark(key: Seq<char>) -> (nat, char, char, char, char) {
    (key.len(), at(key, 0), at(key, 1), at(key, 8), at(key, 11))
}

/// The marks of the keys of the page block.
proof fn lemma_page_keys()
    ensures
        mark("url"@) == (3nat, 'u', 'r', ' ', ' '),
        mark("path"@) == (4nat, 'p', 'a', ' ', ' '),
        mark("title"@) == (5nat, 't', 'i', ' ', ' '),
        mark("category"@) == (8nat, 'c', 'a', ' ', ' '),
        mark("name"@) == (4nat, 'n', 'a', ' ', ' '),
        mark("referrer"@) == (8nat, 'r', 'e', ' ', ' '),
        mark("keywords"@) == (8nat, 'k', 'e', ' ', ' '),
{
    reveal_strlit("url");
    reveal_strlit("path");
    reveal_strlit("title");
    reveal_strlit("category");
    reveal_strlit("name");
    reveal_strlit("referrer");
    reveal_strlit("keywords");
}

/// The marks of the keys of the campaign block.
proof fn lemma_campaign_keys()
    ensures
        mark("campaign_name"@) == (13nat, 'c', 'a', '_', 'm'),
        mark("campaign_source"@) == (15nat, 'c', 'a', '_', 'u'),
        mark("campaign_medium"@) == (15nat, 'c', 'a', '_', 'd'),
        mark("campaign_term"@) == (13nat, 'c', 'a', '_', 'r'),
        mark("campaign_content"@) == (16nat, 'c', 'a', '_', 'n'),
        mark("campaign_creative_format"@) == (24nat, 'c', 'a', '_', 'e'),
        mark("campaign_marketing_tactic"@) == (25nat, 'c', 'a', '_', 'r'),
{
    reveal_strlit("campaign_name");
    reveal_strlit("campaign_source");
    reveal_strlit("campaign_medium");
    reveal_strlit("campaign_term");
    reveal_strlit("campaign_content");
    reveal_strlit("campaign_creative_format");
    reveal_strlit("campaign_marketing_tactic");
}

/// The marks of the keys of the session block.
proof fn lemma_session_keys()
    ensures
        mark("session_id"@) == (10nat, 's', 'e', 'i', ' '),
        mark("previous_session_id"@) == (19nat, 'p', 'r', '_', 's'),
        mark("session_count"@) == (13nat, 's', 'e', 'c', 'n'),
        mark("session_start"@) == (13nat, 's', 'e', 's', 'r'),
        mark("first_seen"@) == (10nat, 'f', 'i', 'e', ' '),
        mark("last_seen"@) == (9nat, 'l', 'a', 'n', ' '),
{
    reveal_strlit("session_id");
    reveal_strlit("previous_session_id");
    reveal_strlit("session_count");
    reveal_strlit("session_start");
    reveal_strlit("first_seen");
    reveal_strlit("last_seen");
}

/// The marks of the keys of the client block.
proof fn lemma_client_keys()
    ensures
        mark("ip"@) == (2nat, 'i', 'p', ' ', ' '),
        mark("city"@) == (4nat, 'c', 'i', ' ', ' '),
        mark("country_code"@) == (12nat, 'c', 'o', 'c', 'e'),
        mark("country_name"@) == (12nat, 'c', 'o', 'n', 'e'),
        mark("continent"@) == (9nat, 'c', 'o', 't', ' '),
        mark("region"@) == (6nat, 'r', 'e', ' ', ' '),
        mark("locale"@) == (6nat, 'l', 'o', ' ', ' '),
        mark("timezone"@) == (8nat, 't', 'i', ' ', ' '),
        mark("os_name"@) == (7nat, 'o', 's', ' ', ' '),
        mark("os_version"@) == (10nat, 'o', 's', 'o', ' '),
        mark("user_agent"@) == (10nat, 'u', 's', 'n', ' '),
        mark("user_agent_architecture"@) == (23nat, 'u', 's', 'n', 'a'),
        mark("user_agent_bitness"@) == (18nat, 'u', 's', 'n', 'b'),
        mark("user_agent_full_version_list"@) == (28nat, 'u', 's', 'n', 'f'),
        mark("user_agent_version_list"@) == (23nat, 'u', 's', 'n', 'v'),
        mark("user_agent_mobile"@) == (17nat, 'u', 's', 'n', 'm'),
        mark("user_agent_model"@) == (16nat, 'u', 's', 'n', 'm'),
        mark("screen_width"@) == (12nat, 's', 'c', 'i', 'h'),
        mark("screen_height"@) == (13nat, 's', 'c', 'e', 'h'),
        mark("screen_density"@) == (14nat, 's', 'c', 'e', 'i'),
{
    reveal_strlit("ip");
    reveal_strlit("city");
    reveal_strlit("country_code");
    reveal_strlit("country_name");
    reveal_strlit("continent");
    reveal_strlit("region");
    reveal_strlit("locale");
    reveal_strlit("timezone");
    reveal_strlit("os_name");
    reveal_strlit("os_version");
    reveal_strlit("user_agent");
    reveal_strlit("user_agent_architecture");
    reveal_strlit("user_agent_bitness");
    reveal_strlit("user_agent_full_version_list");
    reveal_strlit("user_agent_version_list");
    reveal_strlit("user_agent_mobile");
    reveal_strlit("user_agent_model");
    reveal_strlit("screen_width");
    reveal_strlit("screen_height");
    reveal_strlit("screen_density");
}

/// The marks of the reserved members of an event.
proof fn lemma_reserved_keys()
    ensures
        mark("token"@) == (5nat, 't', 'o', ' ', ' '),
        mark("distinct_id"@) == (11nat, 'd', 'i', '_', ' '),
        mark("time"@) == (4nat, 't', 'i', ' ', ' '),
        mark("$insert_id"@) == (10nat, '$', 'i', 'i', ' '),
{
    reveal_strlit("token");
    reveal_strlit("distinct_id");
    reveal_strlit("time");
    reveal_strlit("$insert_id");
}

/// Offering a text under a key puts it there exactly when it is not blank.
/// A blank text changes nothing, and no other key is touched either way.
pub proof fn lemma_insert_if_nonempty(
    bag: Map<Seq<char>, Seq<char>>,
    key: Seq<char>,
    value: Seq<char>,
)
    ensures
        optional_written(bag, put_nonblank(bag, key, value), key, value),
        blank(value) ==> put_nonblank(bag, key, value) == bag,
        forall|other: Seq<char>|
            other != key ==> same_at(bag, put_nonblank(bag, key, value), other),
{
}

/// After a list of pairs was offered, each key holds the last offer made
/// under it, and a key under which nothing was offered is as it was.
pub proof fn lemma_insert_all_nonempty(
    bag: Map<Seq<char>, Seq<char>>,
    pairs: Seq<(Seq<char>, Seq<char>)>,
    key: Seq<char>,
)
    ensures
        offered_or(bag, put_all_nonblank(bag, pairs), pairs, key),
    decreases pairs.len(),
{
    if pairs.len() > 0 {
        lemma_insert_all_nonempty(bag, pairs.drop_last(), key);
    }
}

/// The campaign block keeps its law, whatever the bag held.
pub proof fn lemma_campaign_fields(bag: Map<Seq<char>, Seq<char>>, campaign: CampaignView)
    ensures
        campaign_law(bag, campaign_enriched(bag, campaign), campaign),
{
    lemma_campaign_keys();
}

/// The session block keeps its law, whatever the bag held.
pub proof fn lemma_session_fields(bag: Map<Seq<char>, Seq<char>>, session: SessionView)
    ensures
        session_law(bag, session_enriched(bag, session), session),
{
    lemma_session_keys();
}

/// The first third of the client's texts, as the client block writes them.
#[verifier::opaque]
spec fn client_place_written(
    bag: Map<Seq<char>, Seq<char>>,
    client: ClientView,
) -> Map<Seq<char>, Seq<char>> {
    let bag = put_nonblank(bag, "ip"@, client.ip);
    let bag = put_nonblank(bag, "city"@, client.city);
    let bag = put_nonblank(bag, "country_code"@, client.country_code);
    let bag = put_nonblank(bag, "country_name"@, client.country_name);
    let bag = put_nonblank(bag, "continent"@, client.continent);
    put_nonblank(bag, "region"@, client.region)
}

/// The second third of the client's texts.
#[verifier::opaque]
spec fn client_system_written(
    bag: Map<Seq<char>, Seq<char>>,
    client: ClientView,
) -> Map<Seq<char>, Seq<char>> {
    let bag = put_nonblank(bag, "locale"@, client.locale);
    let bag = put_nonblank(bag, "timezone"@, client.timezone);
    let bag = put_nonblank(bag, "os_name"@, client.os_name);
    let bag = put_nonblank(bag, "os_version"@, client.os_version);
    put_nonblank(bag, "user_agent"@, client.user_agent)
}

/// The last third of the client's texts.
#[verifier::opaque]
spec fn client_agent_written(
    bag: Map<Seq<char>, Seq<char>>,
    client: ClientView,
) -> Map<Seq<char>, Seq<char>> {
    let bag = put_nonblank(bag, "user_agent_architecture"@, client.user_agent_architecture);
    let bag = put_nonblank(bag, "user_agent_bitness"@, client.user_agent_bitness);
    let bag = put_nonblank(
        bag,
        "user_agent_full_version_list"@,
        client.user_agent_full_version_list,
    );
    let bag = put_nonblank(bag, "user_agent_version_list"@, client.user_agent_version_list);
    let bag = put_nonblank(bag, "user_agent_mobile"@, client.user_agent_mobile);
    put_nonblank(bag, "user_agent_model"@, client.user_agent_model)
}

/// The keys of the first third of the client's texts.
spec fn client_place_key(key: Seq<char>) -> bool {
    ||| key == "ip"@
    ||| key == "city"@
    ||| key == "country_code"@
    ||| key == "country_name"@
    ||| key == "continent"@
    ||| key == "region"@
}

/// The keys of the second third of the client's texts.
spec fn client_system_key(key: Seq<char>) -> bool {
    ||| key == "locale"@
    ||| key == "timezone"@
    ||| key == "os_name"@
    ||| key == "os_version"@
    ||| key == "user_agent"@
}

/// The keys of the last third of the client's texts.
spec fn client_agent_key(key: Seq<char>) -> bool {
    ||| key == "user_agent_architecture"@
    ||| key == "user_agent_bitness"@
    ||| key == "user_agent_full_version_list"@
    ||| key == "user_agent_version_list"@
    ||| key == "user_agent_mobile"@
    ||| key == "user_agent_model"@
}

spec fn client_place_law(
    before: Map<Seq<char>, Seq<char>>,
    after: Map<Seq<char>, Seq<char>>,
    client: ClientView,
) -> bool {
    &&& optional_written(before, after, "ip"@, client.ip)
    &&& optional_written(before, after, "city"@, client.city)
    &&& optional_written(before, after, "country_code"@, client.country_code)
    &&& optional_written(before, after, "country_name"@, client.country_name)
    &&& optional_written(before, after, "continent"@, client.continent)
    &&& optional_written(before, after, "region"@, client.region)
    &&& forall|key: Seq<char>|
        #![trigger after.contains_key(key)]
        #![trigger after[key]]
        !client_place_key(key) ==> same_at(before, after, key)
}

spec fn client_system_law(
    before: Map<Seq<char>, Seq<char>>,
    after: Map<Seq<char>, Seq<char>>,
    client: ClientView,
) -> bool {
    &&& optional_written(before, after, "locale"@, client.locale)
    &&& optional_written(before, after, "timezone"@, client.timezone)
    &&& optional_written(before, after, "os_name"@, client.os_name)
    &&& optional_written(before, after, "os_version"@, client.os_version)
    &&& optional_written(before, after, "user_agent"@, client.user_agent)
    &&& forall|key: Seq<char>|
        #![trigger after.contains_key(key)]
        #![trigger after[key]]
        !client_system_key(key) ==> same_at(before, after, key)
}

spec fn client_agent_law(
    before: Map<Seq<char>, Seq<char>>,
    after: Map<Seq<char>, Seq<char>>,
    client: ClientView,
) -> bool {
    &&& optional_written(before, after, "user_agent_architecture"@, client.user_agent_architecture)
    &&& optional_written(before, after, "user_agent_bitness"@, client.user_agent_bitness)
    &&& optional_written(
        before,
        after,
        "user_agent_full_version_list"@,
        client.user_agent_full_version_list,
    )
    &&& optional_written(before, after, "user_agent_version_list"@, client.user_agent_version_list)
    &&& optional_written(before, after, "user_agent_mobile"@, client.user_agent_mobile)
    &&& optional_written(before, after, "user_agent_model"@, client.user_agent_model)
    &&& forall|key: Seq<char>|
        #![trigger after.contains_key(key)]
        #![trigger after[key]]
        !client_agent_key(key) ==> same_at(before, after, key)
}

proof fn lemma_client_place(bag: Map<Seq<char>, Seq<char>>, client: ClientView)
    ensures
        client_place_law(bag, client_place_written(bag, client), client),
{
    reveal(client_place_written);
    lemma_client_keys();
}

proof fn lemma_client_system(bag: Map<Seq<char>, Seq<char>>, client: ClientView)
    ensures
        client_system_law(bag, client_system_written(bag, client), client),
{
    reveal(client_system_written);
    lemma_client_keys();
}

proof fn lemma_client_agent(bag: Map<Seq<char>, Seq<char>>, client: ClientView)
    ensures
        client_agent_law(bag, client_agent_written(bag, client), client),
{
    reveal(client_agent_written);
    lemma_client_keys();
}

/// The three parts of the client's texts and the screen's measures, one
/// after the other, make up the law of the client block.
proof fn lemma_client_parts(
    bag: Map<Seq<char>, Seq<char>>,
    placed: Map<Seq<char>, Seq<char>>,
    system: Map<Seq<char>, Seq<char>>,
    agent: Map<Seq<char>, Seq<char>>,
    after: Map<Seq<char>, Seq<char>>,
    client: ClientView,
)
    requires
        client_place_law(bag, placed, client),
        client_system_law(placed, system, client),
        client_agent_law(system, agent, client),
        after == agent.insert("screen_width"@, decimal_text(client.screen_width as int)).insert(
            "screen_height"@,
            decimal_text(client.screen_height as int),
        ).insert("screen_density"@, client.screen_density),
    ensures
        client_law(bag, after, client),
{
    lemma_client_keys();
}

/// The client block keeps its law, whatever the bag held.
pub proof fn lemma_client_fields(bag: Map<Seq<char>, Seq<char>>, client: ClientView)
    ensures
        client_law(bag, client_enriched(bag, client), client),
{
    let placed = client_place_written(bag, client);
    let system = client_system_written(placed, client);
    let agent = client_agent_written(system, client);
    let after = client_enriched(bag, client);
    assert(after == agent.insert("screen_width"@, decimal_text(client.screen_width as int)).insert(
        "screen_height"@,
        decimal_text(client.screen_height as int),
    ).insert("screen_density"@, client.screen_density)) by {
        reveal(client_place_written);
        reveal(client_system_written);
        reveal(client_agent_written);
    }
    lemma_client_place(bag, client);
    lemma_client_system(placed, client);
    lemma_client_agent(system, client);
    lemma_client_parts(bag, placed, system, agent, after, client);
}

/// The six texts and the keyword text of the page block, as it writes them
/// before the page's properties.
#[verifier::opaque]
spec fn page_texts_written(
    bag: Map<Seq<char>, Seq<char>>,
    page: PageDataView,
    keywords: Option<Seq<char>>,
) -> Map<Seq<char>, Seq<char>> {
    let bag = put_nonblank(bag, "url"@, page.url);
    let bag = put_nonblank(bag, "path"@, page.path);
    let bag = put_nonblank(bag, "title"@, page.title);
    let bag = put_nonblank(bag, "category"@, page.category);
    let bag = put_nonblank(bag, "name"@, page.name);
    let bag = put_nonblank(bag, "referrer"@, page.referrer);
    match keywords {
        Some(text) => bag.insert("keywords"@, text),
        None => bag,
    }
}

spec fn page_texts_law(
    before: Map<Seq<char>, Seq<char>>,
    after: Map<Seq<char>, Seq<char>>,
    page: PageDataView,
    keywords: Option<Seq<char>>,
) -> bool {
    &&& optional_written(before, after, "url"@, page.url)
    &&& optional_written(before, after, "path"@, page.path)
    &&& optional_written(before, after, "title"@, page.title)
    &&& optional_written(before, after, "category"@, page.category)
    &&& optional_written(before, after, "name"@, page.name)
    &&& optional_written(before, after, "referrer"@, page.referrer)
    &&& match keywords {
        Some(text) => holds(after, "keywords"@, text),
        None => same_at(before, after, "keywords"@),
    }
    &&& forall|key: Seq<char>|
        #![trigger after.contains_key(key)]
        #![trigger after[key]]
        !page_key(key) ==> same_at(before, after, key)
}

proof fn lemma_page_texts(
    bag: Map<Seq<char>, Seq<char>>,
    page: PageDataView,
    keywords: Option<Seq<char>>,
)
    ensures
        page_texts_law(bag, page_texts_written(bag, page, keywords), page, keywords),
{
    reveal(page_texts_written);
    lemma_page_keys();
}

/// The texts of the page block, then its properties, make up its law.
proof fn lemma_page_parts(
    bag: Map<Seq<char>, Seq<char>>,
    texts: Map<Seq<char>, Seq<char>>,
    after: Map<Seq<char>, Seq<char>>,
    page: PageDataView,
    keywords: Option<Seq<char>>,
)
    requires
        page_texts_law(bag, texts, page, keywords),
        forall|key: Seq<char>|
            #![trigger after.contains_key(key)]
            #![trigger after[key]]
            offered_or(texts, after, page.properties, key),
    ensures
        page_law(bag, after, page, keywords),
{
    lemma_page_keys();
}

/// The page block keeps its law, whatever the bag held and whatever keyword
/// text it was given.
pub proof fn lemma_page_fields(
    bag: Map<Seq<char>, Seq<char>>,
    page: PageDataView,
    keywords: Option<Seq<char>>,
)
    ensures
        page_law(bag, page_enriched(bag, page, keywords), page, keywords),
{
    let texts = page_texts_written(bag, page, keywords);
    let after = page_enriched(bag, page, keywords);
    assert(after == put_all_nonblank(texts, page.properties)) by {
        reveal(page_texts_written);
    }
    lemma_page_texts(bag, page, keywords);
    assert forall|key: Seq<char>|
        #![trigger after.contains_key(key)]
        #![trigger after[key]]
        offered_or(texts, after, page.properties, key) by {
        lemma_insert_all_nonempty(texts, page.properties, key);
    }
    lemma_page_parts(bag, texts, after, page, keywords);
}

/// A keyword list that is not empty is in the bag under `keywords`, as the
/// JSON text that was made of it, unless a property of the page takes the
/// key.
pub proof fn lemma_keywords_written(bag: Map<Seq<char>, Seq<char>>, page: PageDataView)
    requires
        page.keywords.len() > 0,
        json_of_strings(page.keywords) is Some,
        last_offer(page.properties, "keywords"@) is None,
    ensures
        holds(
            page_enriched(bag, page, keywords_json(page.keywords)),
            "keywords"@,
            json_of_strings(page.keywords).unwrap(),
        ),
{
    lemma_page_fields(bag, page, keywords_json(page.keywords));
}

/// The laws of the three later blocks, one after the other, make up
/// `blocks_law`.
proof fn lemma_blocks(
    paged: Map<Seq<char>, Seq<char>>,
    campaigned: Map<Seq<char>, Seq<char>>,
    sessioned: Map<Seq<char>, Seq<char>>,
    after: Map<Seq<char>, Seq<char>>,
    context: ContextView,
)
    requires
        campaign_law(paged, campaigned, context.campaign),
        session_law(campaigned, sessioned, context.session),
        client_law(sessioned, after, context.client),
    ensures
        blocks_law(paged, after, context),
{
    lemma_campaign_keys();
    lemma_session_keys();
    lemma_client_keys();
}

/// The whole context. The page block keeps its law on the way from the bag
/// to what it leaves; from there to the end the campaign, session and client
/// blocks keep theirs, and nothing that one block wrote is lost to a later
/// one.
pub proof fn lemma_context_fields(bag: Map<Seq<char>, Seq<char>>, context: ContextView)
    ensures
        ({
            let keywords = keywords_json(context.page.keywords);
            let paged = page_enriched(bag, context.page, keywords);
            &&& page_law(bag, paged, context.page, keywords)
            &&& blocks_law(paged, context_enriched(bag, context), context)
        }),
{
    let keywords = keywords_json(context.page.keywords);
    let paged = page_enriched(bag, context.page, keywords);
    let campaigned = campaign_enriched(paged, context.campaign);
    let sessioned = session_enriched(campaigned, context.session);
    let after = client_enriched(sessioned, context.client);
    lemma_page_fields(bag, context.page, keywords);
    lemma_campaign_fields(paged, context.campaign);
    lemma_session_fields(campaigned, context.session);
    lemma_client_fields(sessioned, context.client);
    lemma_blocks(paged, campaigned, sessioned, after, context);
}

/// The identifier of a user is the `user_id` where that is not blank, else
/// the `edgee_id`.
pub proof fn lemma_distinct_id(user: UserDataView)
    ensures
        !blank(user.user_id) ==> distinct_id(user) == user.user_id,
        blank(user.user_id) ==> distinct_id(user) == user.edgee_id,
{
}

/// The names of the reserved members of an event.
pub open spec fn reserved_key(key: Seq<char>) -> bool {
    ||| key == "token"@
    ||| key == "distinct_id"@
    ||| key == "time"@
    ||| key == "$insert_id"@
}

/// The value is among the members under the name.
pub open spec fn member(members: Map<Seq<char>, Json>, name: Seq<char>, value: Json) -> bool {
    members.contains_key(name) && members[name] == value
}

/// The members of an event's `properties`. The four reserved members are
/// there with the token, the user's identifier, the event's time and the
/// event's own identifier, whatever the bag holds under their names. Every
/// other member is a value of the bag, as a JSON string.
pub proof fn lemma_reserved_members(
    bag: Map<Seq<char>, Seq<char>>,
    token: Seq<char>,
    event: EventView,
)
    ensures
        ({
            let members = event_members(bag, token, event);
            &&& member(members, "token"@, Json::Text(token))
            &&& member(members, "distinct_id"@, Json::Text(distinct_id(event.context.user)))
            &&& member(members, "time"@, Json::Integer(event.timestamp as int))
            &&& member(members, "$insert_id"@, Json::Text(event.uuid))
            &&& forall|key: Seq<char>|
                #![trigger members.contains_key(key)]
                #![trigger members[key]]
                !reserved_key(key) ==> (members.contains_key(key) == bag.contains_key(key))
                    && (bag.contains_key(key) ==> members[key] == Json::Text(bag[key]))
        }),
{
    lemma_reserved_keys();
}

/// The document of a profile update is a list of one object with three
/// members: the identifier, the project's token, and the whole bag under
/// `$set`.
pub proof fn lemma_engage_members(
    distinct_id: Seq<char>,
    project_token: Seq<char>,
    bag: Map<Seq<char>, Seq<char>>,
)
    ensures
        ({
            let document = engage_document(distinct_id, project_token, bag);
            &&& document is List
            &&& document->List_0.len() == 1
            &&& document->List_0[0] is Object
            &&& member(document->List_0[0]->Object_0, "$distinct_id"@, Json::Text(distinct_id))
            &&& member(document->List_0[0]->Object_0, "$token"@, Json::Text(project_token))
            &&& member(document->List_0[0]->Object_0, "$set"@, Json::Object(text_members(bag)))
        }),
{
    reveal_strlit("$distinct_id");
    reveal_strlit("$token");
    reveal_strlit("$set");
    assert("$distinct_id"@.len() == 12 && "$token"@.len() == 6 && "$set"@.len() == 4);
}

/// Settings are turned down exactly when the secret or the token is missing
/// or blank, the secret being looked at first. Where they are taken, the
/// project's identifier is what was configured, and the region is what was
/// configured or, without that, the default.
pub proof fn lemma_settings_resolution(dict: Seq<(Seq<char>, Seq<char>)>)
    ensures
        required(dict, "api_secret"@) is None <==> resolve(dict) == Err::<
            SettingsView,
            ConfigurationError,
        >(ConfigurationError::MissingApiSecret),
        required(dict, "api_secret"@) is Some && required(dict, "project_token"@) is None
            <==> resolve(dict) == Err::<SettingsView, ConfigurationError>(
            ConfigurationError::MissingProjectToken,
        ),
        resolve(dict) matches Ok(settings) ==> {
            &&& !blank(settings.api_secret)
            &&& !blank(settings.project_token)
            &&& Some(settings.api_secret) == configured(dict, "api_secret"@)
            &&& Some(settings.project_token) == configured(dict, "project_token"@)
            &&& settings.project_id == configured(dict, "project_id"@)
            &&& configured(dict, "region"@) is None ==> settings.region == default_region()
            &&& configured(dict, "region"@) matches Some(region) ==> settings.region == region
        },
{
}

/// A required setting counts as missing where no entry has its key, and
/// where the last entry with its key holds nothing but white space.
pub proof fn lemma_required_setting(dict: Seq<(Seq<char>, Seq<char>)>, key: Seq<char>)
    ensures
        required(dict, key) is None <==> !entries_map(dict).contains_key(key) || blank(
            entries_map(dict)[key],
        ),
{
}

/// The shape of the settings decides the convention. Settings with a
/// `mixpanel_token` and no `api_secret` need that token and nothing else.
/// All others are taken exactly when `resolve` takes them, with its
/// settings and its errors.
pub proof fn lemma_configuration(dict: Seq<(Seq<char>, Seq<char>)>)
    ensures
        !entries_map(dict).contains_key("mixpanel_token"@) ==> !legacy_shape(dict),
        legacy_shape(dict) ==> match configuration(dict) {
            Ok(taken) => {
                &&& taken is Legacy
                &&& taken->Legacy_0.mixpanel_token == entries_map(dict)["mixpanel_token"@]
                &&& !blank(taken->Legacy_0.mixpanel_token)
            },
            Err(error) => {
                &&& error == ConfigurationError::MissingMixpanelToken
                &&& blank(entries_map(dict)["mixpanel_token"@])
            },
        },
        !legacy_shape(dict) ==> match configuration(dict) {
            Ok(taken) => taken is Import && resolve(dict) == Ok::<
                SettingsView,
                ConfigurationError,
            >(taken->Import_0),
            Err(error) => resolve(dict) == Err::<SettingsView, ConfigurationError>(error),
        },
{
}

/// When the entry points owe a request. Settings must be taken. `page` wants
/// a page payload and `track` a track payload; `user` takes any. With two
/// credentials `page` and `track` also want a secret that can be encoded.
/// Settings that are turned down give all three the same error.
pub proof fn lemma_requests_owed(event: EventView, dict: Seq<(Seq<char>, Seq<char>)>)
    ensures
        match configuration(dict) {
            Ok(ConfigurationView::Import(settings)) => {
                &&& page_outcome(event, dict) is Ok <==> event.data is Page && encodable(
                    settings.api_secret,
                )
                &&& track_outcome(event, dict) is Ok <==> event.data is Track && encodable(
                    settings.api_secret,
                )
                &&& user_outcome(event, dict) is Ok
            },
            Ok(ConfigurationView::Legacy(_)) => {
                &&& page_outcome(event, dict) is Ok <==> event.data is Page
                &&& track_outcome(event, dict) is Ok <==> event.data is Track
                &&& user_outcome(event, dict) is Ok
            },
            Err(error) => {
                &&& page_outcome(event, dict) == Err::<EdgeeRequestView, Seq<char>>(error.text())
                &&& track_outcome(event, dict) == page_outcome(event, dict)
                &&& user_outcome(event, dict) == page_outcome(event, dict)
            },
        },
{
}

/// One identifier in both kinds of request. An event carries the user's
/// identifier as its reserved member `distinct_id`. A profile update is filed
/// under the same identifier, and its bag starts with that identifier under
/// `$distinct_id`.
pub proof fn lemma_one_identifier(
    event: EventView,
    dict: Seq<(Seq<char>, Seq<char>)>,
    token: Seq<char>,
    bag: Map<Seq<char>, Seq<char>>,
)
    ensures
        member(
            event_members(bag, token, event),
            "distinct_id"@,
            Json::Text(distinct_id(event.context.user)),
        ),
        configuration(dict) matches Ok(ConfigurationView::Import(settings)) ==> user_outcome(
            event,
            dict,
        ) == Ok::<EdgeeRequestView, Seq<char>>(
            engage_request(
                settings,
                distinct_id(event.context.user),
                context_enriched(user_seed(event.context), event.context),
            ),
        ),
        last_offer(event.context.user.properties, "$distinct_id"@) is None ==> holds(
            user_seed(event.context),
            "$distinct_id"@,
            distinct_id(event.context.user),
        ),
{
    lemma_reserved_members(bag, token, event);
    reveal_strlit("$distinct_id");
    reveal_strlit("$ip");
    assert("$distinct_id"@.len() == 12 && "$ip"@.len() == 3);
    let seeded = put_nonblank(
        Map::empty().insert("$distinct_id"@, distinct_id(event.context.user)),
        "$ip"@,
        event.context.client.ip,
    );
    lemma_insert_all_nonempty(seeded, event.context.user.properties, "$distinct_id"@);
}

/// The six texts of a page payload, as the page entry point writes them
/// before the payload's properties.
#[verifier::opaque]
spec fn page_seed_texts(data: PageDataView) -> Map<Seq<char>, Seq<char>> {
    let bag = put_nonblank(Map::empty(), "url"@, data.url);
    let bag = put_nonblank(bag, "title"@, data.title);
    let bag = put_nonblank(bag, "path"@, data.path);
    let bag = put_nonblank(bag, "referrer"@, data.referrer);
    let bag = put_nonblank(bag, "category"@, data.category);
    put_nonblank(bag, "name"@, data.name)
}

spec fn page_seed_texts_law(texts: Map<Seq<char>, Seq<char>>, data: PageDataView) -> bool {
    &&& optional_written(Map::empty(), texts, "url"@, data.url)
    &&& optional_written(Map::empty(), texts, "title"@, data.title)
    &&& optional_written(Map::empty(), texts, "path"@, data.path)
    &&& optional_written(Map::empty(), texts, "referrer"@, data.referrer)
    &&& optional_written(Map::empty(), texts, "category"@, data.category)
    &&& optional_written(Map::empty(), texts, "name"@, data.name)
}

proof fn lemma_page_seed_texts(data: PageDataView)
    ensures
        page_seed_texts_law(page_seed_texts(data), data),
{
    reveal(page_seed_texts);
    lemma_page_keys();
}

proof fn lemma_page_seed_parts(
    texts: Map<Seq<char>, Seq<char>>,
    seed: Map<Seq<char>, Seq<char>>,
    data: PageDataView,
)
    requires
        page_seed_texts_law(texts, data),
        forall|key: Seq<char>|
            #![trigger seed.contains_key(key)]
            #![trigger seed[key]]
            offered_or(texts, seed, data.properties, key),
    ensures
        page_seed_law(seed, data),
{
}

/// Before the context is written, the bag of a page event holds under each
/// page key what the payload offers: a property of that name, else the
/// payload's own text, else nothing.
pub proof fn lemma_page_seed(data: PageDataView)
    ensures
        page_seed_law(page_seed(data), data),
{
    let texts = page_seed_texts(data);
    let seed = page_seed(data);
    assert(seed == put_all_nonblank(texts, data.properties)) by {
        reveal(page_seed_texts);
    }
    lemma_page_seed_texts(data);
    assert forall|key: Seq<char>|
        #![trigger seed.contains_key(key)]
        #![trigger seed[key]]
        offered_or(texts, seed, data.properties, key) by {
        lemma_insert_all_nonempty(texts, data.properties, key);
    }
    lemma_page_seed_parts(texts, seed, data);
}

proof fn lemma_page_precedence_parts(
    seed: Map<Seq<char>, Seq<char>>,
    paged: Map<Seq<char>, Seq<char>>,
    after: Map<Seq<char>, Seq<char>>,
    data: PageDataView,
    context: ContextView,
    keywords: Option<Seq<char>>,
)
    requires
        page_seed_law(seed, data),
        page_law(seed, paged, context.page, keywords),
        blocks_law(paged, after, context),
    ensures
        page_precedence(
            after,
            "url"@,
            data.url,
            data.properties,
            context.page.url,
            context.page.properties,
        ),
        page_precedence(
            after,
            "title"@,
            data.title,
            data.properties,
            context.page.title,
            context.page.properties,
        ),
        page_precedence(
            after,
            "path"@,
            data.path,
            data.properties,
            context.page.path,
            context.page.properties,
        ),
        page_precedence(
            after,
            "referrer"@,
            data.referrer,
            data.properties,
            context.page.referrer,
            context.page.properties,
        ),
        page_precedence(
            after,
            "category"@,
            data.category,
            data.properties,
            context.page.category,
            context.page.properties,
        ),
        page_precedence(
            after,
            "name"@,
            data.name,
            data.properties,
            context.page.name,
            context.page.properties,
        ),
{
    lemma_page_keys();
    lemma_campaign_keys();
    lemma_session_keys();
    lemma_client_keys();
}

/// In the bag of a page event the context wins. Under each of the six page
/// keys the bag holds what the page of the context offers, and only where
/// that offers nothing what the payload offers; where neither offers
/// anything the key is absent.
pub proof fn lemma_page_precedence(data: PageDataView, context: ContextView)
    ensures
        ({
            let bag = context_enriched(page_seed(data), context);
            let theirs = context.page;
            &&& page_precedence(
                bag,
                "url"@,
                data.url,
                data.properties,
                theirs.url,
                theirs.properties,
            )
            &&& page_precedence(
                bag,
                "title"@,
                data.title,
                data.properties,
                theirs.title,
                theirs.properties,
            )
            &&& page_precedence(
                bag,
                "path"@,
                data.path,
                data.properties,
                theirs.path,
                theirs.properties,
            )
            &&& page_precedence(
                bag,
                "referrer"@,
                data.referrer,
                data.properties,
                theirs.referrer,
                theirs.properties,
            )
            &&& page_precedence(
                bag,
                "category"@,
                data.category,
                data.properties,
                theirs.category,
                theirs.properties,
            )
            &&& page_precedence(
                bag,
                "name"@,
                data.name,
                data.properties,
                theirs.name,
                theirs.properties,
            )
        }),
{
    let seed = page_seed(data);
    let keywords = keywords_json(context.page.keywords);
    let paged = page_enriched(seed, context.page, keywords);
    let after = context_enriched(seed, context);
    lemma_page_seed(data);
    lemma_context_fields(seed, context);
    lemma_page_precedence_parts(seed, paged, after, data, context, keywords);
}

/// The four blocks of the context write different keys: no key belongs to
/// two of them. So the order of the blocks matters only through the page's
/// own properties, which may bear any name.
pub proof fn lemma_blocks_apart(key: Seq<char>)
    ensures
        !(page_key(key) && campaign_key(key)),
        !(page_key(key) && session_key(key)),
        !(page_key(key) && client_key(key)),
        !(campaign_key(key) && session_key(key)),
        !(campaign_key(key) && client_key(key)),
        !(session_key(key) && client_key(key)),
{
    lemma_page_keys();
    lemma_campaign_keys();
    lemma_session_keys();
    lemma_client_keys();
}

} // verus!
