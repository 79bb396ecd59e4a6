//! Verified core of an anonymity layer: provider records and selection,
//! security policy, cover-traffic presets, decoy-route simulation, route
//! diversity analytics, discovery and federation registries, and the
//! decision logic of the Katzenpost, Loopix and Nym backends.

pub mod ratio;
pub mod cover;
pub mod ids;
pub mod distinct;
pub mod types;
pub mod katzenpost;
pub mod loopix;
pub mod security;
pub mod decoy;
pub mod discovery;
pub mod federation;
pub mod analytics;
pub mod entropy;
pub mod nym;
pub mod sdk;
pub mod controller;
