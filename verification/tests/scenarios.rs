use anonymity::analytics::{federation_diversity, path_diversity, AnonymityAnalytics};
use anonymity::controller::AnonymityHeartbeatPayload;
use anonymity::cover::AdaptiveCoverProfile;
use anonymity::decoy::{DecoyMode, DecoyRoutingFramework};
use anonymity::discovery::AnonymousDiscoveryEngine;
use anonymity::federation::MixnetFederationManager;
use anonymity::katzenpost::{KatzenpostBackend, KatzenpostGateway, KatzenpostGatewayDiscovery};
use anonymity::loopix::{LoopixBackend, LoopixProvider, LoopixProviderDiscovery};
use anonymity::nym::{MixnetStatusSnapshot, NymAnonymityAdapter};
use anonymity::ratio::Ratio;
use anonymity::sdk::AnonymityPluginManifest;
use anonymity::security::AnonymitySecurityPolicy;
use anonymity::types::{AnonymityProfile, AnonymityProvider, AnonymityRoute};

fn value(r: Ratio) -> f64 {
    r.num as f64 / r.den as f64
}

fn route(hops: Vec<&str>) -> AnonymityRoute {
    AnonymityRoute {
        id: 1,
        profile_id: 2,
        provider: AnonymityProvider::Nym,
        entry_node: "a".into(),
        exit_node: "z".into(),
        hop_count: hops.len() as u32,
        hops: hops.into_iter().map(String::from).collect(),
        socks_port: None,
    }
}

fn gateway(id: &str, address: &str, key: &str, country: &str, latency: u64, healthy: bool) -> KatzenpostGateway {
    KatzenpostGateway {
        id: id.into(),
        address: address.into(),
        identity_key: key.into(),
        country: Some(country.into()),
        latency_ms: Some(latency),
        healthy,
        last_seen: None,
    }
}

fn provider(id: &str, address: &str, key: &str, layer: u8, latency: u64, healthy: bool) -> LoopixProvider {
    LoopixProvider {
        id: id.into(),
        address: address.into(),
        public_key: key.into(),
        layer,
        latency_ms: Some(latency),
        healthy,
        last_seen: None,
    }
}

#[test]
fn compute_snapshot_scales_with_providers() {
    let analytics = AnonymityAnalytics::new();
    let low = analytics.compute(1, 0, false, 1);
    let high = analytics.compute(4, 3, true, 8);
    assert!(value(high.cover_traffic_efficiency) > value(low.cover_traffic_efficiency));
    assert!(value(high.federation_diversity) > value(low.federation_diversity));
}

#[test]
fn path_diversity_increases_with_unique_hops() {
    let diverse = vec![route(vec!["a", "b", "c"]), route(vec!["d", "e"])];
    let flat = vec![route(vec!["a", "a"]), route(vec!["a", "a"])];
    assert!(value(path_diversity(&diverse)) > value(path_diversity(&flat)));
}

#[test]
fn federation_diversity_counts_providers() {
    let profiles = vec![
        AnonymityProfile::new("n", AnonymityProvider::Nym),
        AnonymityProfile::new("k", AnonymityProvider::Katzenpost),
    ];
    assert_eq!(value(federation_diversity(&profiles)), 1.0);
}

#[test]
fn privacy_score_reflects_stub_mode() {
    let profile = AnonymityProfile::new("test", AnonymityProvider::Nym);
    let adapter = NymAnonymityAdapter::with_profile(profile);
    let status = MixnetStatusSnapshot { running: false, stub_mode: true, socks_port: None, last_error: None };
    let score = value(adapter.privacy_score(&status));
    assert!(score > 0.0 && score <= 1.0);
}

#[test]
fn empty_allowlist_permits_all() {
    let policy = AnonymitySecurityPolicy::default();
    assert!(policy.provider_allowed(&AnonymityProvider::Nym));
    assert!(policy.provider_allowed(&AnonymityProvider::Katzenpost));
}

#[test]
fn allowlist_restricts_providers() {
    let policy = AnonymitySecurityPolicy {
        allowed_providers: vec![AnonymityProvider::Nym],
        ..Default::default()
    };
    assert!(policy.provider_allowed(&AnonymityProvider::Nym));
    assert!(!policy.provider_allowed(&AnonymityProvider::Loopix));
}

#[test]
fn empty_payload_defaults() {
    let id = 0x1234_5678_9abc_4def_8123_4567_89ab_cdef_u128;
    let payload = AnonymityHeartbeatPayload::empty(id);
    assert_eq!(payload.agent_id, id);
    assert!(!payload.anonymity_connected);
    assert!(payload.active_routes.is_empty());
}

#[test]
fn profile_bandwidth_increases_with_aggression() {
    assert!(AdaptiveCoverProfile::Maximum.bandwidth_bps() > AdaptiveCoverProfile::Conservative.bandwidth_bps());
}

#[test]
fn simulation_injects_decoys_in_memory() {
    let mut fw = DecoyRoutingFramework::new(DecoyMode::Simulation);
    let result = fw.simulate_route(&["entry", "mix", "exit"], 2);
    assert_eq!(result.decoys_injected, 2);
    assert_eq!(result.route.hops.len(), 5);
    assert!(value(result.effective_anonymity) > 0.5);
}

#[test]
fn research_mode_never_leaves_framework() {
    let mut fw = DecoyRoutingFramework::new(DecoyMode::Research);
    let result = fw.simulate_route(&["a"], 1);
    assert_eq!(result.mode, DecoyMode::Research);
    assert!(fw.get_route(result.route.id).is_some());
}

#[test]
fn register_discover_health() {
    let mut engine = AnonymousDiscoveryEngine::new();
    let profile = AnonymityProfile::new("svc", AnonymityProvider::Nym);
    let id = engine.register(profile, "127.0.0.1:1080");
    assert_eq!(engine.discover().len(), 1);
    assert!(engine.health_check(id).healthy);
    assert!(!engine.health_check(id ^ 1).healthy);
}

#[test]
fn register_discover_optimize() {
    let mut mgr = MixnetFederationManager::new();
    let kp_profile = AnonymityProfile::new("kp", AnonymityProvider::Katzenpost);
    let kp = KatzenpostBackend::new(
        kp_profile.clone(),
        KatzenpostGatewayDiscovery::from_gateways(vec![gateway("gw1", "127.0.0.1:4444", "k1", "DE", 25, true)]),
    );
    let lp_profile = AnonymityProfile::new("lp", AnonymityProvider::Loopix);
    let lp = LoopixBackend::new(
        lp_profile.clone(),
        LoopixProviderDiscovery::from_providers(vec![provider("p1", "127.0.0.1:5555", "pk1", 1, 30, true)]),
    );
    mgr.register(kp_profile, kp.provider_id());
    mgr.register(lp_profile, lp.provider_id());
    assert_eq!(mgr.discover().len(), 2);
    // Both backends are in stub mode; the Loopix stub scores higher.
    assert!(kp.privacy_score().lt(&lp.privacy_score()));
    let route = mgr.federate_route(lp.route_info());
    assert_eq!(route.provider, AnonymityProvider::Federated);
}

#[test]
fn discovers_healthy_gateways() {
    let discovery = KatzenpostGatewayDiscovery::from_gateways(vec![
        gateway("gw1", "127.0.0.1:4444", "k1", "DE", 50, true),
        gateway("gw2", "127.0.0.1:4445", "k2", "NL", 30, false),
    ]);
    assert_eq!(discovery.discover().len(), 1);
    assert_eq!(discovery.select_best().unwrap().id, "gw1");
}

#[test]
fn discovers_healthy_providers() {
    let discovery = LoopixProviderDiscovery::from_providers(vec![
        provider("p1", "127.0.0.1:5555", "pk1", 1, 40, true),
        provider("p2", "127.0.0.1:5556", "pk2", 2, 20, false),
    ]);
    assert_eq!(discovery.discover().len(), 1);
    assert_eq!(discovery.select_best().unwrap().id, "p1");
}

#[test]
fn manifest_fields_roundtrip() {
    let manifest = AnonymityPluginManifest::new("test-plugin", "0.1.0", "custom");
    assert_eq!(manifest.name, "test-plugin");
    assert_eq!(manifest.version, "0.1.0");
    assert_eq!(manifest.provider, "custom");
}
