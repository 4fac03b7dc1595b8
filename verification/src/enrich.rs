//! The context enrichers: each copies one block of the context into the bag.

use crate::bag::PropertyBag;
use crate::event::{
    Campaign, CampaignView, Client, ClientView, Dict, PageData, PageDataView, Session,
    SessionView,
};
use crate::helpers::{insert_if_nonempty, put_nonblank};
use crate::json::{json_of_strings, strings_to_json};
use crate::text::{bool_string, bool_text, decimal_string, decimal_text};
use vstd::prelude::*;

verus! {

/// The bag after each pair of the list was offered to it, first to last.
pub open spec fn put_all_nonblank(
    bag: Map<Seq<char>, Seq<char>>,
    pairs: Seq<(Seq<char>, Seq<char>)>,
) -> Map<Seq<char>, Seq<char>>
    decreases pairs.len(),
{
    if pairs.len() == 0 {
        bag
    } else {
        put_nonblank(put_all_nonblank(bag, pairs.drop_last()), pairs.last().0, pairs.last().1)
    }
}

/// The bag after the client block was written to it.
pub open spec fn client_enriched(
    bag: Map<Seq<char>, Seq<char>>,
    client: ClientView,
) -> Map<Seq<char>, Seq<char>> {
    let bag = put_nonblank(bag, "ip"@, client.ip);
    let bag = put_nonblank(bag, "city"@, client.city);
    let bag = put_nonblank(bag, "country_code"@, client.country_code);
    let bag = put_nonblank(bag, "country_name"@, client.country_name);
    let bag = put_nonblank(bag, "continent"@, client.continent);
    let bag = put_nonblank(bag, "region"@, client.region);
    let bag = put_nonblank(bag, "locale"@, client.locale);
    let bag = put_nonblank(bag, "timezone"@, client.timezone);
    let bag = put_nonblank(bag, "os_name"@, client.os_name);
    let bag = put_nonblank(bag, "os_version"@, client.os_version);
    let bag = put_nonblank(bag, "user_agent"@, client.user_agent);
    let bag = put_nonblank(bag, "user_agent_architecture"@, client.user_agent_architecture);
    let bag = put_nonblank(bag, "user_agent_bitness"@, client.user_agent_bitness);
    let bag = put_nonblank(
        bag,
        "user_agent_full_version_list"@,
        client.user_agent_full_version_list,
    );
    let bag = put_nonblank(bag, "user_agent_version_list"@, client.user_agent_version_list);
    let bag = put_nonblank(bag, "user_agent_mobile"@, client.user_agent_mobile);
    let bag = put_nonblank(bag, "user_agent_model"@, client.user_agent_model);
    let bag = bag.insert("screen_width"@, decimal_text(client.screen_width as int));
    let bag = bag.insert("screen_height"@, decimal_text(client.screen_height as int));
    bag.insert("screen_density"@, client.screen_density)
}

/// The bag after the page block was written to it; `keywords_json` is the
/// text to put under `keywords`, if there is one.
pub open spec fn page_enriched(
    bag: Map<Seq<char>, Seq<char>>,
    page: PageDataView,
    keywords_json: Option<Seq<char>>,
) -> Map<Seq<char>, Seq<char>> {
    let bag = put_nonblank(bag, "url"@, page.url);
    let bag = put_nonblank(bag, "path"@, page.path);
    let bag = put_nonblank(bag, "title"@, page.title);
    let bag = put_nonblank(bag, "category"@, page.category);
    let bag = put_nonblank(bag, "name"@, page.name);
    let bag = put_nonblank(bag, "referrer"@, page.referrer);
    let bag = match keywords_json {
        Some(text) => bag.insert("keywords"@, text),
        None => bag,
    };
    put_all_nonblank(bag, page.properties)
}

/// The JSON text for a keyword list: none for an empty list, else what
/// `serde_json` makes of it.
pub open spec fn keywords_json(keywords: Seq<Seq<char>>) -> Option<Seq<char>> {
    if keywords.len() == 0 {
        None
    } else {
        json_of_strings(keywords)
    }
}

/// The bag after the campaign block was written to it.
pub open spec fn campaign_enriched(
    bag: Map<Seq<char>, Seq<char>>,
    campaign: CampaignView,
) -> Map<Seq<char>, Seq<char>> {
    let bag = put_nonblank(bag, "campaign_name"@, campaign.name);
    let bag = put_nonblank(bag, "campaign_source"@, campaign.source);
    let bag = put_nonblank(bag, "campaign_medium"@, campaign.medium);
    let bag = put_nonblank(bag, "campaign_term"@, campaign.term);
    let bag = put_nonblank(bag, "campaign_content"@, campaign.content);
    let bag = put_nonblank(bag, "campaign_creative_format"@, campaign.creative_format);
    put_nonblank(bag, "campaign_marketing_tactic"@, campaign.marketing_tactic)
}

/// The bag after the session block was written to it.
pub open spec fn session_enriched(
    bag: Map<Seq<char>, Seq<char>>,
    session: SessionView,
) -> Map<Seq<char>, Seq<char>> {
    let bag = put_nonblank(bag, "session_id"@, session.session_id);
    let bag = put_nonblank(bag, "previous_session_id"@, session.previous_session_id);
    let bag = bag.insert("session_count"@, decimal_text(session.session_count as int));
    let bag = bag.insert("session_start"@, bool_text(session.session_start));
    let bag = bag.insert("first_seen"@, decimal_text(session.first_seen as int));
    bag.insert("last_seen"@, decimal_text(session.last_seen as int))
}

/// Offers each pair of the list to the bag, first to last.
pub fn insert_all_nonempty(props: &mut PropertyBag, pairs: &Dict)
    ensures
        final(props)@ == put_all_nonblank(old(props)@, pairs.deep_view()),
{
    let ghost all = pairs.deep_view();
    let mut i: usize = 0;
    while i < pairs.len()
        invariant
            i <= pairs.len(),
            all == pairs.deep_view(),
            props@ == put_all_nonblank(old(props)@, all.take(i as int)),
        decreases pairs.len() - i,
    {
        insert_if_nonempty(props, pairs[i].0.as_str(), pairs[i].1.as_str());
        proof {
            assert(all.take(i + 1).drop_last() =~= all.take(i as int));
        }
        i = i + 1;
    }
    proof {
        assert(all.take(i as int) =~= all);
    }
}

/// Writes the client block: the texts that are not blank, and the screen's
/// measures in any case.
pub fn enrich_with_client_context(props: &mut PropertyBag, client: &Client)
    ensures
        final(props)@ == client_enriched(old(props)@, client@),
{
    insert_if_nonempty(props, "ip", client.ip.as_str());
    insert_if_nonempty(props, "city", client.city.as_str());
    insert_if_nonempty(props, "country_code", client.country_code.as_str());
    insert_if_nonempty(props, "country_name", client.country_name.as_str());
    insert_if_nonempty(props, "continent", client.continent.as_str());
    insert_if_nonempty(props, "region", client.region.as_str());
    insert_if_nonempty(props, "locale", client.locale.as_str());
    insert_if_nonempty(props, "timezone", client.timezone.as_str());
    insert_if_nonempty(props, "os_name", client.os_name.as_str());
    insert_if_nonempty(props, "os_version", client.os_version.as_str());
    insert_if_nonempty(props, "user_agent", client.user_agent.as_str());
    insert_if_nonempty(props, "user_agent_architecture", client.user_agent_architecture.as_str());
    insert_if_nonempty(props, "user_agent_bitness", client.user_agent_bitness.as_str());
    insert_if_nonempty(
        props,
        "user_agent_full_version_list",
        client.user_agent_full_version_list.as_str(),
    );
    insert_if_nonempty(props, "user_agent_version_list", client.user_agent_version_list.as_str());
    insert_if_nonempty(props, "user_agent_mobile", client.user_agent_mobile.as_str());
    insert_if_nonempty(props, "user_agent_model", client.user_agent_model.as_str());
    props.insert("screen_width".to_string(), decimal_string(client.screen_width as i64));
    props.insert("screen_height".to_string(), decimal_string(client.screen_height as i64));
    props.insert("screen_density".to_string(), client.screen_density.clone());
}

/// Writes the page block with the keyword text that the caller has at hand:
/// the six page texts that are not blank, the keyword text if there is one,
/// then the page's own properties that are not blank.
pub fn enrich_with_page_and_keywords(
    props: &mut PropertyBag,
    page: &PageData,
    keywords_json: Option<String>,
)
    ensures
        final(props)@ == page_enriched(old(props)@, page@, keywords_json.deep_view()),
{
    insert_if_nonempty(props, "url", page.url.as_str());
    insert_if_nonempty(props, "path", page.path.as_str());
    insert_if_nonempty(props, "title", page.title.as_str());
    insert_if_nonempty(props, "category", page.category.as_str());
    insert_if_nonempty(props, "name", page.name.as_str());
    insert_if_nonempty(props, "referrer", page.referrer.as_str());
    match keywords_json {
        Some(text) => {
            props.insert("keywords".to_string(), text);
        },
        None => {},
    }
    insert_all_nonempty(props, &page.properties);
}

/// Writes the page block. A keyword list that is not empty goes in as JSON
/// text under `keywords`; if it cannot be written as JSON it is left out.
pub fn enrich_with_page_context(props: &mut PropertyBag, page: &PageData)
    ensures
        final(props)@ == page_enriched(old(props)@, page@, keywords_json(page@.keywords)),
{
    let keywords = if page.keywords.len() == 0 {
        None
    } else {
        strings_to_json(&page.keywords)
    };
    enrich_with_page_and_keywords(props, page, keywords);
}

/// Writes the campaign block: the texts that are not blank.
pub fn enrich_with_campaign_context(props: &mut PropertyBag, campaign: &Campaign)
    ensures
        final(props)@ == campaign_enriched(old(props)@, campaign@),
{
    insert_if_nonempty(props, "campaign_name", campaign.name.as_str());
    insert_if_nonempty(props, "campaign_source", campaign.source.as_str());
    insert_if_nonempty(props, "campaign_medium", campaign.medium.as_str());
    insert_if_nonempty(props, "campaign_term", campaign.term.as_str());
    insert_if_nonempty(props, "campaign_content", campaign.content.as_str());
    insert_if_nonempty(props, "campaign_creative_format", campaign.creative_format.as_str());
    insert_if_nonempty(props, "campaign_marketing_tactic", campaign.marketing_tactic.as_str());
}

/// Writes the session block: the two identifiers that are not blank, and the
/// counters in any case.
pub fn enrich_with_session_context(props: &mut PropertyBag, session: &Session)
    ensures
        final(props)@ == session_enriched(old(props)@, session@),
{
    insert_if_nonempty(props, "session_id", session.session_id.as_str());
    insert_if_nonempty(props, "previous_session_id", session.previous_session_id.as_str());
    props.insert("session_count".to_string(), decimal_string(session.session_count as i64));
    props.insert("session_start".to_string(), bool_string(session.session_start));
    props.insert("first_seen".to_string(), decimal_string(session.first_seen));
    props.insert("last_seen".to_string(), decimal_string(session.last_seen));
}

} // verus!
