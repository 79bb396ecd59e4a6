use vstd::prelude::*;
use crate::ids::{now, Timestamp};
use crate::ratio::Ratio;

verus! {

/// Anonymity node reported by an endpoint agent.
#[derive(Debug, Clone)]
pub struct AnonymityNodeDto {
    pub id: u128,
    pub provider: String,
    pub gateway_id: String,
    pub country: Option<String>,
    pub latency_ms: Option<u64>,
    pub healthy: bool,
    pub privacy_score: Ratio,
}

/// Active anonymous route on an agent.
#[derive(Debug, Clone)]
pub struct AnonymityRouteDto {
    pub route_id: u128,
    pub label: String,
    pub provider: String,
    pub hops: Vec<String>,
    pub socks_port: Option<u16>,
    pub cover_traffic_profile: Option<String>,
    pub active: bool,
}

/// Federated cross-mixnet route summary.
#[derive(Debug, Clone)]
pub struct FederatedRouteDto {
    pub route_id: u128,
    pub providers: Vec<String>,
    pub hop_count: u32,
    pub privacy_score: Ratio,
}

/// Payload embedded in agent heartbeat metadata for anonymity status.
#[derive(Debug, Clone)]
pub struct AnonymityHeartbeatPayload {
    pub agent_id: u128,
    pub reported_at: Timestamp,
    pub anonymity_connected: bool,
    pub stub_mode: bool,
    pub selected_node: Option<AnonymityNodeDto>,
    pub active_routes: Vec<AnonymityRouteDto>,
    pub federated_routes: Vec<FederatedRouteDto>,
    pub cover_traffic_profile: Option<String>,
    pub privacy_score: Ratio,
    pub path_diversity: Ratio,
}

impl AnonymityHeartbeatPayload {
    /// The payload of agent `agent_id` with nothing connected, reported now.
    pub fn empty(agent_id: u128) -> (r: Self)
        ensures
            r.agent_id == agent_id,
            !r.anonymity_connected,
            !r.stub_mode,
            r.selected_node is None,
            r.active_routes@.len() == 0,
            r.federated_routes@.len() == 0,
            r.cover_traffic_profile is None,
            r.privacy_score == (Ratio { num: 0, den: 1 }),
            r.path_diversity == (Ratio { num: 0, den: 1 }),
    {
        AnonymityHeartbeatPayload {
            agent_id,
            reported_at: now(),
            anonymity_connected: false,
            stub_mode: false,
            selected_node: None,
            active_routes: Vec::new(),
            federated_routes: Vec::new(),
            cover_traffic_profile: None,
            privacy_score: Ratio::zero(),
            path_diversity: Ratio::zero(),
        }
    }
}

} // verus!
