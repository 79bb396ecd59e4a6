use anonymity::analytics::{federation_diversity, path_diversity, AnonymityAnalytics};
use anonymity::cover::{cover_interval, AdaptiveCoverProfile, AdaptiveCoverTrafficEngine};
use anonymity::decoy::{DecoyMode, DecoyRoutingFramework};
use anonymity::discovery::AnonymousDiscoveryEngine;
use anonymity::entropy::RouteEntropyEngine;
use anonymity::ids::Timestamp;
use anonymity::federation::MixnetFederationManager;
use anonymity::katzenpost::{KatzenpostBackend, KatzenpostGateway, KatzenpostGatewayDiscovery};
use anonymity::loopix::{LoopixBackend, LoopixProvider, LoopixProviderDiscovery};
use anonymity::nym::{MixnetStatusSnapshot, NymAnonymityAdapter};
use anonymity::ratio::Ratio;
use anonymity::security::AnonymitySecurityPolicy;
use anonymity::types::{AnonymityHealth, AnonymityProfile, AnonymityProvider, AnonymityRoute};

fn route_with(provider: AnonymityProvider, hop_count: u32, hops: &[&str]) -> AnonymityRoute {
    AnonymityRoute {
        id: 7,
        profile_id: 8,
        provider,
        entry_node: "in".into(),
        exit_node: "out".into(),
        hop_count,
        hops: hops.iter().map(|h| h.to_string()).collect(),
        socks_port: Some(1080),
    }
}

fn gw(id: &str, latency: Option<u64>, healthy: bool) -> KatzenpostGateway {
    KatzenpostGateway {
        id: id.into(),
        address: "127.0.0.1:4444".into(),
        identity_key: "k".into(),
        country: None,
        latency_ms: latency,
        healthy,
        last_seen: None,
    }
}

fn lp(id: &str, latency: Option<u64>, healthy: bool) -> LoopixProvider {
    LoopixProvider {
        id: id.into(),
        address: "127.0.0.1:5555".into(),
        public_key: "pk".into(),
        layer: 1,
        latency_ms: latency,
        healthy,
        last_seen: None,
    }
}

#[test]
fn cover_presets_grow_with_intensity() {
    let order = [
        AdaptiveCoverProfile::Conservative,
        AdaptiveCoverProfile::Balanced,
        AdaptiveCoverProfile::Aggressive,
        AdaptiveCoverProfile::Maximum,
    ];
    for w in order.windows(2) {
        assert!(w[0].packets_per_second() < w[1].packets_per_second());
        assert!(w[0].bandwidth_bps() < w[1].bandwidth_bps());
    }
    assert_eq!(AdaptiveCoverProfile::Balanced.packets_per_second(), 8);
    assert_eq!(AdaptiveCoverProfile::Aggressive.bandwidth_bps(), 65_536);
    assert_eq!(AdaptiveCoverProfile::default(), AdaptiveCoverProfile::Balanced);
}

#[test]
fn cover_interval_is_one_second_over_rate() {
    assert_eq!(cover_interval(AdaptiveCoverProfile::Conservative), 500);
    assert_eq!(cover_interval(AdaptiveCoverProfile::Balanced), 125);
    assert_eq!(cover_interval(AdaptiveCoverProfile::Aggressive), 50);
    assert_eq!(cover_interval(AdaptiveCoverProfile::Maximum), 20);
}

#[test]
fn cover_engine_start_stop_cycle() {
    let mut engine = AdaptiveCoverTrafficEngine::new(AdaptiveCoverProfile::Balanced);
    assert!(!engine.is_running());
    assert_eq!(engine.start(), Some(AdaptiveCoverProfile::Balanced));
    assert!(engine.is_running());
    assert_eq!(engine.start(), None);
    engine.set_profile(AdaptiveCoverProfile::Maximum);
    assert_eq!(engine.profile(), AdaptiveCoverProfile::Maximum);
    assert_eq!(engine.tick(), (50, 262_144));
    engine.stop();
    assert!(!engine.is_running());
    assert_eq!(engine.start(), Some(AdaptiveCoverProfile::Maximum));
}

#[test]
fn ratio_comparisons() {
    let a = Ratio::new(1, 3);
    let b = Ratio::new(2, 6);
    let c = Ratio::new(1, 2);
    assert!(a.le(&b) && b.le(&a) && !a.lt(&b));
    assert!(a.lt(&c) && !c.le(&a));
    assert!(Ratio::new(u64::MAX, u64::MAX - 1).lt(&Ratio::new(u64::MAX, 1)));
    assert!(Ratio::new(u64::MAX - 1, u64::MAX).lt(&Ratio::new(u64::MAX, u64::MAX - 1)));
}

#[test]
fn provider_identifiers() {
    let plugin = AnonymityProvider::Plugin(0x123e4567_e89b_12d3_a456_426614174000);
    let profile = AnonymityProfile::new("p", plugin);
    assert_eq!(profile.provider_id(), "plugin:123e4567-e89b-12d3-a456-426614174000");
    assert_eq!(AnonymityProfile::new("n", AnonymityProvider::Nym).provider_id(), "nym");
    assert_eq!(AnonymityProfile::new("k", AnonymityProvider::Katzenpost).provider_id(), "katzenpost");
    assert_eq!(AnonymityProfile::new("l", AnonymityProvider::Loopix).provider_id(), "loopix");
    assert_eq!(AnonymityProfile::new("f", AnonymityProvider::Federated).provider_id(), "federated");
}

#[test]
fn new_profile_defaults() {
    let profile = AnonymityProfile::new("svc", AnonymityProvider::Loopix);
    assert_eq!(profile.name, "svc");
    assert!(profile.enabled);
    assert!(profile.gateway_id.is_none() && profile.config_json.is_none());
    assert_eq!(profile.created_at, profile.updated_at);
    assert_eq!((profile.id >> 76) & 0xf, 4);
    assert_eq!((profile.id >> 62) & 0x3, 2);
    let other = AnonymityProfile::new("svc", AnonymityProvider::Loopix);
    assert_ne!(profile.id, other.id);
}

#[test]
fn health_reports() {
    let ok = AnonymityHealth::ok("fine");
    assert!(ok.healthy && ok.message.as_deref() == Some("fine") && ok.latency_ms.is_none());
    let bad = AnonymityHealth::degraded("down");
    assert!(!bad.healthy && bad.message.as_deref() == Some("down"));
}

#[test]
fn privacy_score_threshold() {
    let mut policy = AnonymitySecurityPolicy::default();
    assert_eq!(policy.max_restarts, 3);
    assert!(policy.loopback_only && !policy.require_binaries);
    assert!(policy.privacy_score_allowed(Ratio::zero()));
    policy.min_privacy_score = Ratio::new(1, 2);
    assert!(policy.privacy_score_allowed(Ratio::new(1, 2)));
    assert!(policy.privacy_score_allowed(Ratio::new(82, 100)));
    assert!(!policy.privacy_score_allowed(Ratio::new(35, 100)));
}

#[test]
fn allowlist_with_plugins() {
    let policy = AnonymitySecurityPolicy {
        allowed_providers: vec![AnonymityProvider::Plugin(5), AnonymityProvider::Loopix],
        ..Default::default()
    };
    assert!(policy.provider_allowed(&AnonymityProvider::Plugin(5)));
    assert!(!policy.provider_allowed(&AnonymityProvider::Plugin(6)));
    assert!(policy.provider_allowed(&AnonymityProvider::Loopix));
    assert!(!policy.provider_allowed(&AnonymityProvider::Federated));
}

#[test]
fn decoy_hops_labels_and_ratios() {
    let mut fw = DecoyRoutingFramework::new(DecoyMode::Lab);
    assert_eq!(fw.mode(), DecoyMode::Lab);
    let result = fw.simulate_route(&["entry", "mix", "exit"], 12);
    let labels: Vec<&str> = result.route.hops.iter().map(|h| h.label.as_str()).collect();
    assert_eq!(&labels[..4], &["entry", "mix", "exit", "decoy-0"]);
    assert_eq!(labels[13], "decoy-10");
    assert_eq!(labels[14], "decoy-11");
    assert!(result.route.hops[..3].iter().all(|h| !h.is_decoy));
    assert!(result.route.hops[3..].iter().all(|h| h.is_decoy));
    assert_eq!(result.route.decoy_ratio, Ratio::new(12, 15));
    assert_eq!(result.effective_anonymity, Ratio::new(5 * 15 + 4 * 12, 150));
    let stored = fw.get_route(result.route.id).expect("recorded");
    assert_eq!(stored.hops.len(), 15);
    assert!(fw.get_route(result.route.id ^ 1).is_none());
}

#[test]
fn decoy_anonymity_bounds() {
    let mut fw = DecoyRoutingFramework::new(DecoyMode::Simulation);
    let none = fw.simulate_route(&["a", "b"], 0);
    assert_eq!(none.effective_anonymity, Ratio::new(10, 20));
    let empty = fw.simulate_route(&[], 0);
    assert_eq!(empty.route.hops.len(), 0);
    assert_eq!(empty.route.decoy_ratio, Ratio::new(0, 1));
    assert_eq!(empty.effective_anonymity, Ratio::new(5, 10));
    let all = fw.simulate_route(&[], 3);
    assert_eq!(all.effective_anonymity, Ratio::new(27, 30));
    assert!(all.effective_anonymity.le(&Ratio::new(19, 20)));
}

#[test]
fn discovery_by_provider_and_health() {
    let mut engine = AnonymousDiscoveryEngine::default();
    let a = engine.register(AnonymityProfile::new("a", AnonymityProvider::Nym), "10.0.0.1:1");
    let b = engine.register(AnonymityProfile::new("b", AnonymityProvider::Loopix), "10.0.0.2:2");
    let c = engine.register(AnonymityProfile::new("c", AnonymityProvider::Nym), "10.0.0.3:3");
    let all = engine.discover();
    assert_eq!(all.iter().map(|s| s.id).collect::<Vec<_>>(), vec![a, b, c]);
    assert_eq!(all[1].endpoint, "10.0.0.2:2");
    let nym = engine.discover_by_provider("nym");
    assert_eq!(nym.iter().map(|s| s.id).collect::<Vec<_>>(), vec![a, c]);
    assert!(engine.discover_by_provider("katzenpost").is_empty());
    let found = engine.health_check(b);
    assert_eq!(found.message.as_deref(), Some("service registered"));
    let missing = engine.health_check(0);
    assert_eq!(missing.message.as_deref(), Some("service not found"));
}

#[test]
fn federation_validation_rules() {
    let mgr = MixnetFederationManager::new();
    let short = mgr.validate_cross_mixnet(&route_with(AnonymityProvider::Nym, 1, &["a"]));
    assert!(!short.valid);
    assert_eq!(short.message.as_deref(), Some("invalid federated route"));
    let empty = mgr.validate_cross_mixnet(&route_with(AnonymityProvider::Federated, 3, &[]));
    assert!(!empty.valid);
    let repeated = mgr.validate_cross_mixnet(&route_with(AnonymityProvider::Nym, 2, &["a", "a"]));
    assert!(!repeated.valid);
    let federated = mgr.validate_cross_mixnet(&route_with(AnonymityProvider::Federated, 2, &["a", "a"]));
    assert!(federated.valid);
    let distinct = mgr.validate_cross_mixnet(&route_with(AnonymityProvider::Loopix, 3, &["a", "b", "c"]));
    assert!(distinct.valid);
    assert_eq!(distinct.hop_count, 3);
    assert_eq!(distinct.message.as_deref(), Some("cross-mixnet route validated"));
    assert!(distinct.providers.is_empty());
}

#[test]
fn federated_route_validates() {
    let mut mgr = MixnetFederationManager::default();
    mgr.register(AnonymityProfile::new("k", AnonymityProvider::Katzenpost), "katzenpost");
    let single = mgr.federate_route(route_with(AnonymityProvider::Katzenpost, 2, &["x", "y"]));
    assert_eq!(single.provider, AnonymityProvider::Katzenpost);
    assert_eq!(single.hops, vec!["x", "y"]);
    mgr.register(AnonymityProfile::new("l", AnonymityProvider::Loopix), "loopix");
    mgr.register(AnonymityProfile::new("n", AnonymityProvider::Nym), "nym");
    let route = mgr.federate_route(route_with(AnonymityProvider::Loopix, 3, &["q"]));
    assert_eq!(route.provider, AnonymityProvider::Federated);
    assert_eq!(route.hop_count, 3);
    assert_eq!(route.hops, vec!["katzenpost", "loopix", "nym"]);
    assert_eq!(route.id, 7);
    let check = mgr.validate_cross_mixnet(&route);
    assert!(check.valid);
    assert_eq!(check.providers, vec!["katzenpost", "loopix", "nym"]);
    let names: Vec<String> = mgr.discover().into_iter().map(|p| p.name).collect();
    assert_eq!(names, vec!["k", "l", "n"]);
    assert_eq!(mgr.providers().len(), 3);
}

#[test]
fn gateway_selection_prefers_first_lowest_latency() {
    let discovery = KatzenpostGatewayDiscovery::from_gateways(vec![
        gw("slow", Some(90), true),
        gw("unknown", None, true),
        gw("fast", Some(20), true),
        gw("fast-too", Some(20), true),
        gw("fastest-but-down", Some(1), false),
    ]);
    assert_eq!(discovery.select_best().unwrap().id, "fast");
    assert_eq!(discovery.discover().len(), 4);
    assert_eq!(discovery.gateways().len(), 5);
    let unknown_only = KatzenpostGatewayDiscovery::from_gateways(vec![gw("u", None, true), gw("v", None, true)]);
    assert_eq!(unknown_only.select_best().unwrap().id, "u");
    let down = KatzenpostGatewayDiscovery::from_gateways(vec![gw("d", Some(1), false)]);
    assert!(down.select_best().is_none());
    assert!(KatzenpostGatewayDiscovery::default().select_best().is_none());
}

#[test]
fn katzenpost_backend_lifecycle() {
    let profile = AnonymityProfile::new("kp", AnonymityProvider::Katzenpost);
    let profile_id = profile.id;
    let discovery = KatzenpostGatewayDiscovery::from_gateways(vec![gw("gw1", Some(25), true)]);
    let mut backend = KatzenpostBackend::new(profile, discovery);
    assert_eq!(backend.provider_id(), "katzenpost");
    assert_eq!(backend.latency(), 42);
    let seen = Timestamp { secs: 99, nanos: 123_456_789 };
    let stub_route = backend.build_route(None, 11, seen);
    assert_eq!(stub_route.entry_gateway.id, "katzenpost-stub");
    assert_eq!(stub_route.entry_gateway.last_seen, Some(seen));
    assert_eq!(stub_route.hops, vec!["katzenpost-entry", "katzenpost-exit"]);
    assert!(!backend.status().running);
    assert!(!backend.health().healthy);
    backend.select_gateway();
    assert_eq!(backend.latency(), 25);
    let session = backend.record_started(4321);
    assert_eq!(session.socks_port, 4321);
    assert_eq!(session.profile_id, profile_id);
    assert_eq!(session.route.entry_node, "gw1");
    assert_eq!(session.route.socks_port, Some(4321));
    let status = backend.status();
    assert!(status.running && status.stub_mode);
    assert_eq!(status.socks_port, Some(4321));
    assert_eq!(status.profile_id, Some(profile_id));
    assert_eq!(backend.health().message.as_deref(), Some("katzenpost stub running"));
    assert_eq!(backend.privacy_score(), Ratio::new(40, 100));
    backend.stop();
    assert!(!backend.status().running);
    assert_eq!(backend.status().socks_port, None);
    assert_eq!(backend.health().message.as_deref(), Some("katzenpost stopped"));
    assert_eq!(backend.route_info().entry_node, "gw1");
}

#[test]
fn loopix_backend_lifecycle() {
    let profile = AnonymityProfile::new("lp", AnonymityProvider::Loopix);
    let discovery = LoopixProviderDiscovery::from_providers(vec![lp("p1", None, true), lp("p2", Some(30), false)]);
    let mut backend = LoopixBackend::new(profile, discovery);
    assert_eq!(backend.provider_id(), "loopix");
    assert_eq!(backend.route_info().entry_node, "loopix-stub");
    backend.select_provider();
    assert_eq!(backend.latency(), 38);
    let session = backend.record_started(5000);
    assert_eq!(session.route.hops, vec!["loopix-entry", "loopix-mix", "loopix-exit"]);
    assert_eq!(session.route.hop_count, 3);
    assert_eq!(session.route.entry_node, "p1");
    assert_eq!(backend.privacy_score(), Ratio::new(42, 100));
}

#[test]
fn nym_adapter_views() {
    let mut profile = AnonymityProfile::new("nym", AnonymityProvider::Nym);
    let adapter = NymAnonymityAdapter::with_profile(profile.clone());
    let mixnet = MixnetStatusSnapshot { running: true, stub_mode: false, socks_port: Some(9050), last_error: None };
    let route = adapter.route_info(Some(9050));
    assert_eq!(route.entry_node, "nym-gateway");
    assert_eq!(route.hops, vec!["nym-entry", "nym-mix", "nym-exit"]);
    let status = adapter.status(&mixnet);
    assert!(status.running && !status.stub_mode);
    assert_eq!(adapter.privacy_score(&mixnet), Ratio::new(82, 100));
    let session = adapter.start_session(9050, &mixnet);
    assert_eq!(session.socks_port, 9050);
    profile.gateway_id = Some("gw-7".into());
    let with_gateway = NymAnonymityAdapter::with_profile(profile);
    assert_eq!(with_gateway.route_info(None).exit_node, "gw-7");
}

#[test]
fn analytics_exact_values() {
    let analytics = AnonymityAnalytics::default();
    let low = analytics.compute(1, 0, false, 1);
    assert_eq!(low.cover_traffic_efficiency, Ratio::new(5, 40));
    assert_eq!(low.federation_diversity, Ratio::new(0, 3));
    assert_eq!(low.mixnet_diversity, Ratio::new(1, 8));
    let high = analytics.compute(400, 30, true, 80);
    assert_eq!(high.cover_traffic_efficiency, Ratio::new(26, 40));
    assert_eq!(high.federation_diversity, Ratio::new(3, 3));
    assert_eq!(high.mixnet_diversity, Ratio::new(8, 8));
}

#[test]
fn diversity_shares() {
    let r = |hops: &[&str]| route_with(AnonymityProvider::Nym, hops.len() as u32, hops);
    assert_eq!(path_diversity(&[]), Ratio::zero());
    assert_eq!(path_diversity(&[r(&[]), r(&[])]), Ratio::zero());
    assert_eq!(path_diversity(&[r(&["a", "b", "c"]), r(&["d", "e"])]), Ratio::new(5, 5));
    assert_eq!(path_diversity(&[r(&["a", "a"]), r(&["a", "a"])]), Ratio::new(1, 4));
    assert_eq!(path_diversity(&[r(&["a", "b"]), r(&["b", "c"])]), Ratio::new(3, 4));
    let profiles = vec![
        AnonymityProfile::new("n1", AnonymityProvider::Nym),
        AnonymityProfile::new("n2", AnonymityProvider::Nym),
        AnonymityProfile::new("p", AnonymityProvider::Plugin(1)),
        AnonymityProfile::new("q", AnonymityProvider::Plugin(2)),
    ];
    assert_eq!(federation_diversity(&profiles), Ratio::new(3, 4));
    assert_eq!(federation_diversity(&[]), Ratio::zero());
}

#[test]
fn entropy_hop_factor() {
    let engine = RouteEntropyEngine::new();
    assert_eq!(engine.hop_factor(&route_with(AnonymityProvider::Nym, 0, &[])), Ratio::zero());
    assert_eq!(engine.hop_factor(&route_with(AnonymityProvider::Nym, 3, &["a", "a", "a"])), Ratio::new(1, 3));
    assert_eq!(engine.hop_factor(&route_with(AnonymityProvider::Nym, 4, &["a", "b", "c", "d"])), Ratio::new(4, 4));
}
