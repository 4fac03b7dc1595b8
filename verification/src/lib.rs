//! Turns one analytics event into the request that delivers it to Mixpanel.
//!
//! The host hands in an event (a page view, a tracked action or what is
//! known of a user) with the settings of the destination. The library
//! checks the settings, flattens the event and its context into a bag of
//! properties, and builds the request: its address, its headers and its
//! body. It sends nothing and keeps nothing between calls.
//!
//! The entry points are in `component`. What they return is stated over
//! `enrich` (the bag), `settings` (the configuration) and `request` (the
//! documents and requests); `laws` states what follows for every input.
//! The calls into `serde_json`, `base64` and `regex` are in `json`,
//! `encoding` and `matching`, each with what it is taken to do.

pub mod bag;
pub mod component;
pub mod encoding;
pub mod enrich;
pub mod event;
pub mod helpers;
pub mod json;
pub mod laws;
pub mod matching;
pub mod request;
pub mod settings;
pub mod text;
