//! The event that the host hands in, and the request that goes back to it.

use vstd::prelude::*;

verus! {

/// A list of key and value pairs, as the host passes settings and free-form properties.
pub type Dict = Vec<(String, String)>;

/// The kind of an event, as the host names it.
#[derive(Clone, Copy, Debug, PartialEq, Eq, Structural)]
pub enum EventType {
    Page,
    Track,
    User,
}

/// What the user said to being tracked.
#[derive(Clone, Copy, Debug, PartialEq, Eq, Structural)]
pub enum Consent {
    Pending,
    Granted,
    Denied,
}

/// A page: as the payload of a page event, and as the page snapshot of every context.
#[derive(Clone, Debug)]
pub struct PageData {
    pub name: String,
    pub category: String,
    pub keywords: Vec<String>,
    pub title: String,
    pub url: String,
    pub path: String,
    pub search: String,
    pub referrer: String,
    pub properties: Dict,
}

/// What a `PageData` holds, text by text.
pub struct PageDataView {
    pub name: Seq<char>,
    pub category: Seq<char>,
    pub keywords: Seq<Seq<char>>,
    pub title: Seq<char>,
    pub url: Seq<char>,
    pub path: Seq<char>,
    pub search: Seq<char>,
    pub referrer: Seq<char>,
    pub properties: Seq<(Seq<char>, Seq<char>)>,
}

impl View for PageData {
    type V = PageDataView;

    open spec fn view(&self) -> PageDataView {
        PageDataView {
            name: self.name@,
            category: self.category@,
            keywords: self.keywords.deep_view(),
            title: self.title@,
            url: self.url@,
            path: self.path@,
            search: self.search@,
            referrer: self.referrer@,
            properties: self.properties.deep_view(),
        }
    }
}

/// The payload of a track event.
#[derive(Clone, Debug)]
pub struct TrackData {
    pub name: String,
    pub properties: Dict,
    pub products: Vec<Dict>,
}

/// What a `TrackData` holds, text by text.
pub struct TrackDataView {
    pub name: Seq<char>,
    pub properties: Seq<(Seq<char>, Seq<char>)>,
    pub products: Seq<Seq<(Seq<char>, Seq<char>)>>,
}

impl View for TrackData {
    type V = TrackDataView;

    open spec fn view(&self) -> TrackDataView {
        TrackDataView {
            name: self.name@,
            properties: self.properties.deep_view(),
            products: self.products.deep_view(),
        }
    }
}

/// A user: as the payload of a user event, and as the user of every context.
#[derive(Clone, Debug)]
pub struct UserData {
    pub user_id: String,
    pub anonymous_id: String,
    /// The identity that the host assigns; it stands in where `user_id` is blank.
    pub edgee_id: String,
    pub properties: Dict,
}

/// What a `UserData` holds, text by text.
pub struct UserDataView {
    pub user_id: Seq<char>,
    pub anonymous_id: Seq<char>,
    pub edgee_id: Seq<char>,
    pub properties: Seq<(Seq<char>, Seq<char>)>,
}

impl View for UserData {
    type V = UserDataView;

    open spec fn view(&self) -> UserDataView {
        UserDataView {
            user_id: self.user_id@,
            anonymous_id: self.anonymous_id@,
            edgee_id: self.edgee_id@,
            properties: self.properties.deep_view(),
        }
    }
}

/// What an event carries. Exactly one kind of payload is there.
#[derive(Clone, Debug)]
pub enum Data {
    Page(PageData),
    Track(TrackData),
    User(UserData),
}

/// What a `Data` holds.
pub enum DataView {
    Page(PageDataView),
    Track(TrackDataView),
    User(UserDataView),
}

impl View for Data {
    type V = DataView;

    open spec fn view(&self) -> DataView {
        match self {
            Data::Page(page) => DataView::Page(page@),
            Data::Track(track) => DataView::Track(track@),
            Data::User(user) => DataView::User(user@),
        }
    }
}

/// The campaign that brought the user.
#[derive(Clone, Debug)]
pub struct Campaign {
    pub name: String,
    pub source: String,
    pub medium: String,
    pub term: String,
    pub content: String,
    pub creative_format: String,
    pub marketing_tactic: String,
}

/// What a `Campaign` holds, text by text.
pub struct CampaignView {
    pub name: Seq<char>,
    pub source: Seq<char>,
    pub medium: Seq<char>,
    pub term: Seq<char>,
    pub content: Seq<char>,
    pub creative_format: Seq<char>,
    pub marketing_tactic: Seq<char>,
}

impl View for Campaign {
    type V = CampaignView;

    open spec fn view(&self) -> CampaignView {
        CampaignView {
            name: self.name@,
            source: self.source@,
            medium: self.medium@,
            term: self.term@,
            content: self.content@,
            creative_format: self.creative_format@,
            marketing_tactic: self.marketing_tactic@,
        }
    }
}

/// The session of the user. Its numbers always mean something, a zero too.
#[derive(Clone, Debug)]
pub struct Session {
    pub session_id: String,
    pub previous_session_id: String,
    pub session_count: u32,
    pub session_start: bool,
    pub first_seen: i64,
    pub last_seen: i64,
}

/// What a `Session` holds.
pub struct SessionView {
    pub session_id: Seq<char>,
    pub previous_session_id: Seq<char>,
    pub session_count: u32,
    pub session_start: bool,
    pub first_seen: i64,
    pub last_seen: i64,
}

impl View for Session {
    type V = SessionView;

    open spec fn view(&self) -> SessionView {
        SessionView {
            session_id: self.session_id@,
            previous_session_id: self.previous_session_id@,
            session_count: self.session_count,
            session_start: self.session_start,
            first_seen: self.first_seen,
            last_seen: self.last_seen,
        }
    }
}

/// The device and the place of the user.
#[derive(Clone, Debug)]
pub struct Client {
    pub ip: String,
    pub locale: String,
    pub timezone: String,
    pub user_agent: String,
    pub user_agent_architecture: String,
    pub user_agent_bitness: String,
    pub user_agent_version_list: String,
    pub user_agent_full_version_list: String,
    pub user_agent_mobile: String,
    pub user_agent_model: String,
    pub os_name: String,
    pub os_version: String,
    pub screen_width: i32,
    pub screen_height: i32,
    /// The pixel density of the screen, written out as a decimal number.
    pub screen_density: String,
    pub continent: String,
    pub country_code: String,
    pub country_name: String,
    pub region: String,
    pub city: String,
}

/// What a `Client` holds.
pub struct ClientView {
    pub ip: Seq<char>,
    pub locale: Seq<char>,
    pub timezone: Seq<char>,
    pub user_agent: Seq<char>,
    pub user_agent_architecture: Seq<char>,
    pub user_agent_bitness: Seq<char>,
    pub user_agent_version_list: Seq<char>,
    pub user_agent_full_version_list: Seq<char>,
    pub user_agent_mobile: Seq<char>,
    pub user_agent_model: Seq<char>,
    pub os_name: Seq<char>,
    pub os_version: Seq<char>,
    pub screen_width: i32,
    pub screen_height: i32,
    pub screen_density: Seq<char>,
    pub continent: Seq<char>,
    pub country_code: Seq<char>,
    pub country_name: Seq<char>,
    pub region: Seq<char>,
    pub city: Seq<char>,
}

impl View for Client {
    type V = ClientView;

    open spec fn view(&self) -> ClientView {
        ClientView {
            ip: self.ip@,
            locale: self.locale@,
            timezone: self.timezone@,
            user_agent: self.user_agent@,
            user_agent_architecture: self.user_agent_architecture@,
            user_agent_bitness: self.user_agent_bitness@,
            user_agent_version_list: self.user_agent_version_list@,
            user_agent_full_version_list: self.user_agent_full_version_list@,
            user_agent_mobile: self.user_agent_mobile@,
            user_agent_model: self.user_agent_model@,
            os_name: self.os_name@,
            os_version: self.os_version@,
            screen_width: self.screen_width,
            screen_height: self.screen_height,
            screen_density: self.screen_density@,
            continent: self.continent@,
            country_code: self.country_code@,
            country_name: self.country_name@,
            region: self.region@,
            city: self.city@,
        }
    }
}

/// What comes with every event, whatever its payload.
#[derive(Clone, Debug)]
pub struct Context {
    pub page: PageData,
    pub user: UserData,
    pub client: Client,
    pub campaign: Campaign,
    pub session: Session,
}

/// What a `Context` holds.
pub struct ContextView {
    pub page: PageDataView,
    pub user: UserDataView,
    pub client: ClientView,
    pub campaign: CampaignView,
    pub session: SessionView,
}

impl View for Context {
    type V = ContextView;

    open spec fn view(&self) -> ContextView {
        ContextView {
            page: self.page@,
            user: self.user@,
            client: self.client@,
            campaign: self.campaign@,
            session: self.session@,
        }
    }
}

/// One event: a payload, when it happened, and its context.
#[derive(Clone, Debug)]
pub struct Event {
    pub uuid: String,
    /// Seconds since the epoch.
    pub timestamp: i64,
    pub timestamp_millis: i64,
    pub timestamp_micros: i64,
    pub event_type: EventType,
    pub data: Data,
    pub context: Context,
    pub consent: Option<Consent>,
}

/// What an `Event` holds.
pub struct EventView {
    pub uuid: Seq<char>,
    pub timestamp: i64,
    pub timestamp_millis: i64,
    pub timestamp_micros: i64,
    pub event_type: EventType,
    pub data: DataView,
    pub context: ContextView,
    pub consent: Option<Consent>,
}

impl View for Event {
    type V = EventView;

    open spec fn view(&self) -> EventView {
        EventView {
            uuid: self.uuid@,
            timestamp: self.timestamp,
            timestamp_millis: self.timestamp_millis,
            timestamp_micros: self.timestamp_micros,
            event_type: self.event_type,
            data: self.data@,
            context: self.context@,
            consent: self.consent,
        }
    }
}

/// The method of a request.
#[derive(Clone, Copy, Debug, PartialEq, Eq, Structural)]
pub enum HttpMethod {
    Get,
    Put,
    Post,
    Delete,
}

/// A request for the host to send. The library sends nothing itself.
#[derive(Clone, Debug)]
pub struct EdgeeRequest {
    pub method: HttpMethod,
    pub url: String,
    pub headers: Dict,
    pub body: String,
    /// Whether the host adds the headers of the client's own request.
    pub forward_client_headers: bool,
}

/// What an `EdgeeRequest` holds.
pub struct EdgeeRequestView {
    pub method: HttpMethod,
    pub url: Seq<char>,
    pub headers: Seq<(Seq<char>, Seq<char>)>,
    pub body: Seq<char>,
    pub forward_client_headers: bool,
}

impl View for EdgeeRequest {
    type V = EdgeeRequestView;

    open spec fn view(&self) -> EdgeeRequestView {
        EdgeeRequestView {
            method: self.method,
            url: self.url@,
            headers: self.headers.deep_view(),
            body: self.body@,
            forward_client_headers: self.forward_client_headers,
        }
    }
}

} // verus!
