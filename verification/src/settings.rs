//! The destination's settings, resolved once from what the host configured.

use crate::bag::{entries_map, lookup};
use crate::event::Dict;
use crate::text::{blank, is_blank};
use vstd::prelude::*;

verus! {

/// The settings of the destination, checked.
#[derive(Clone, Debug)]
pub struct Settings {
    /// The secret of the service account; never blank.
    pub api_secret: String,
    /// The token of the project; never blank.
    pub project_token: String,
    /// The project's identifier, kept as configured.
    pub project_id: Option<String>,
    /// The first label of the API's host name, kept as configured.
    pub region: String,
}

/// What a `Settings` holds, text by text.
pub struct SettingsView {
    pub api_secret: Seq<char>,
    pub project_token: Seq<char>,
    pub project_id: Option<Seq<char>>,
    pub region: Seq<char>,
}

impl SettingsView {
    /// Both credentials are there: neither is blank.
    pub open spec fn well_formed(self) -> bool {
        !blank(self.api_secret) && !blank(self.project_token)
    }
}

impl View for Settings {
    type V = SettingsView;

    open spec fn view(&self) -> SettingsView {
        SettingsView {
            api_secret: self.api_secret@,
            project_token: self.project_token@,
            project_id: self.project_id.deep_view(),
            region: self.region@,
        }
    }
}

/// The settings of a destination that is configured in the older way: one
/// token, and the classic endpoint.
#[derive(Clone, Debug)]
pub struct LegacySettings {
    /// The token of the project; never blank.
    pub mixpanel_token: String,
}

/// What a `LegacySettings` holds.
pub struct LegacySettingsView {
    pub mixpanel_token: Seq<char>,
}

impl LegacySettingsView {
    /// The token is there: it is not blank.
    pub open spec fn well_formed(self) -> bool {
        !blank(self.mixpanel_token)
    }
}

impl View for LegacySettings {
    type V = LegacySettingsView;

    open spec fn view(&self) -> LegacySettingsView {
        LegacySettingsView { mixpanel_token: self.mixpanel_token@ }
    }
}

/// The convention that a destination is configured for. The shape of its
/// settings decides, once for each call.
#[derive(Clone, Debug)]
pub enum Configuration {
    /// Two credentials: events go to the import endpoint of a region, with
    /// basic authentication.
    Import(Settings),
    /// One token: events go to the classic `/track` endpoint.
    Legacy(LegacySettings),
}

/// What a `Configuration` holds.
pub enum ConfigurationView {
    Import(SettingsView),
    Legacy(LegacySettingsView),
}

impl ConfigurationView {
    /// The credentials of the convention are there.
    pub open spec fn well_formed(self) -> bool {
        match self {
            ConfigurationView::Import(settings) => settings.well_formed(),
            ConfigurationView::Legacy(settings) => settings.well_formed(),
        }
    }
}

impl View for Configuration {
    type V = ConfigurationView;

    open spec fn view(&self) -> ConfigurationView {
        match self {
            Configuration::Import(settings) => ConfigurationView::Import(settings@),
            Configuration::Legacy(settings) => ConfigurationView::Legacy(settings@),
        }
    }
}

/// Why settings were turned down: a required key is missing or its value is blank.
#[derive(Clone, Copy, Debug, PartialEq, Eq, Structural)]
pub enum ConfigurationError {
    MissingApiSecret,
    MissingProjectToken,
    MissingMixpanelToken,
}

impl ConfigurationError {
    /// The text of the error, which names the key.
    pub open spec fn text(self) -> Seq<char> {
        match self {
            ConfigurationError::MissingApiSecret => "Missing or empty 'api_secret' setting"@,
            ConfigurationError::MissingProjectToken => "Missing or empty 'project_token' setting"@,
            ConfigurationError::MissingMixpanelToken => {
                "Missing or empty 'mixpanel_token' setting"@
            },
        }
    }

    /// The text of the error, which names the key.
    pub fn message(&self) -> (message: String)
        ensures
            message@ == self.text(),
    {
        match self {
            ConfigurationError::MissingApiSecret => {
                "Missing or empty 'api_secret' setting".to_string()
            },
            ConfigurationError::MissingProjectToken => {
                "Missing or empty 'project_token' setting".to_string()
            },
            ConfigurationError::MissingMixpanelToken => {
                "Missing or empty 'mixpanel_token' setting".to_string()
            },
        }
    }
}

/// The value configured under `key`. Of several entries with the key the last counts.
pub open spec fn configured(dict: Seq<(Seq<char>, Seq<char>)>, key: Seq<char>) -> Option<
    Seq<char>,
> {
    if entries_map(dict).contains_key(key) {
        Some(entries_map(dict)[key])
    } else {
        None
    }
}

/// The value configured under `key`, unless it is blank.
pub open spec fn required(dict: Seq<(Seq<char>, Seq<char>)>, key: Seq<char>) -> Option<
    Seq<char>,
> {
    match configured(dict, key) {
        Some(value) => if blank(value) {
            None
        } else {
            Some(value)
        },
        None => None,
    }
}

/// The region that stands in where none is configured.
pub open spec fn default_region() -> Seq<char> {
    "api"@
}

/// The settings that a dictionary resolves to, or the first requirement it fails.
pub open spec fn resolve(dict: Seq<(Seq<char>, Seq<char>)>) -> Result<
    SettingsView,
    ConfigurationError,
> {
    match required(dict, "api_secret"@) {
        None => Err(ConfigurationError::MissingApiSecret),
        Some(api_secret) => match required(dict, "project_token"@) {
            None => Err(ConfigurationError::MissingProjectToken),
            Some(project_token) => Ok(
                SettingsView {
                    api_secret,
                    project_token,
                    project_id: configured(dict, "project_id"@),
                    region: match configured(dict, "region"@) {
                        Some(region) => region,
                        None => default_region(),
                    },
                },
            ),
        },
    }
}

/// The settings have the older shape: a `mixpanel_token` is configured, and
/// no `api_secret`.
pub open spec fn legacy_shape(dict: Seq<(Seq<char>, Seq<char>)>) -> bool {
    configured(dict, "api_secret"@) is None && configured(dict, "mixpanel_token"@) is Some
}

/// The configuration that a dictionary resolves to, or the first requirement
/// it fails. Settings of the older shape need their one token; all others
/// are held to the requirements of `resolve`.
pub open spec fn configuration(dict: Seq<(Seq<char>, Seq<char>)>) -> Result<
    ConfigurationView,
    ConfigurationError,
> {
    if legacy_shape(dict) {
        match required(dict, "mixpanel_token"@) {
            Some(mixpanel_token) => Ok(
                ConfigurationView::Legacy(LegacySettingsView { mixpanel_token }),
            ),
            None => Err(ConfigurationError::MissingMixpanelToken),
        }
    } else {
        match resolve(dict) {
            Ok(settings) => Ok(ConfigurationView::Import(settings)),
            Err(error) => Err(error),
        }
    }
}

/// What `Configuration::new` returned, by the view of the configuration.
pub open spec fn configuration_view(outcome: Result<Configuration, ConfigurationError>) -> Result<
    ConfigurationView,
    ConfigurationError,
> {
    match outcome {
        Ok(configuration) => Ok(configuration@),
        Err(error) => Err(error),
    }
}

/// What `Settings::new` returned, by the view of the settings.
pub open spec fn resolved_view(outcome: Result<Settings, ConfigurationError>) -> Result<
    SettingsView,
    ConfigurationError,
> {
    match outcome {
        Ok(settings) => Ok(settings@),
        Err(error) => Err(error),
    }
}

fn required_value(dict: &Dict, key: &str) -> (found: Option<String>)
    ensures
        found.deep_view() == required(dict.deep_view(), key@),
{
    match lookup(dict, key) {
        Some(value) => {
            if is_blank(value.as_str()) {
                None
            } else {
                Some(value.clone())
            }
        },
        None => None,
    }
}

fn configured_value(dict: &Dict, key: &str) -> (found: Option<String>)
    ensures
        found.deep_view() == configured(dict.deep_view(), key@),
{
    match lookup(dict, key) {
        Some(value) => Some(value.clone()),
        None => None,
    }
}

impl Settings {
    /// Checks what the host configured. `api_secret` and `project_token` must
    /// be there and not blank; `project_id` is optional; `region` falls back
    /// to `api`.
    pub fn new(settings_dict: Dict) -> (outcome: Result<Settings, ConfigurationError>)
        ensures
            resolved_view(outcome) == resolve(settings_dict.deep_view()),
            outcome matches Ok(settings) ==> settings@.well_formed(),
    {
        let api_secret = match required_value(&settings_dict, "api_secret") {
            Some(value) => value,
            None => {
                return Err(ConfigurationError::MissingApiSecret);
            },
        };
        let project_token = match required_value(&settings_dict, "project_token") {
            Some(value) => value,
            None => {
                return Err(ConfigurationError::MissingProjectToken);
            },
        };
        let project_id = configured_value(&settings_dict, "project_id");
        let region = match configured_value(&settings_dict, "region") {
            Some(value) => value,
            None => "api".to_string(),
        };
        Ok(Settings { api_secret, project_token, project_id, region })
    }
}

impl Configuration {
    /// Checks what the host configured and tells the convention by its
    /// shape. With a `mixpanel_token` and no `api_secret` it is the older
    /// one, and the token must not be blank. In every other case it is the
    /// one with two credentials, checked as `Settings::new` checks it.
    pub fn new(settings_dict: Dict) -> (outcome: Result<Configuration, ConfigurationError>)
        ensures
            configuration_view(outcome) == configuration(settings_dict.deep_view()),
            outcome matches Ok(configuration) ==> configuration@.well_formed(),
    {
        let legacy = lookup(&settings_dict, "api_secret").is_none() && lookup(
            &settings_dict,
            "mixpanel_token",
        ).is_some();
        if legacy {
            match required_value(&settings_dict, "mixpanel_token") {
                Some(mixpanel_token) => Ok(
                    Configuration::Legacy(LegacySettings { mixpanel_token }),
                ),
                None => Err(ConfigurationError::MissingMixpanelToken),
            }
        } else {
            match Settings::new(settings_dict) {
                Ok(settings) => Ok(Configuration::Import(settings)),
                Err(error) => Err(error),
            }
        }
    }
}

} // verus!
