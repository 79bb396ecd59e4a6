use vstd::prelude::*;
use vstd::string::*;
use crate::ids::{is_random_uuid, new_uuid, now, Timestamp};
use crate::ratio::Ratio;
use crate::types::{
    AnonymityHealth, AnonymityProfile, AnonymityProfileView, AnonymityProvider, AnonymityRoute,
    AnonymitySession, AnonymityStatus,
};

verus! {

/// Katzenpost gateway descriptor.
#[derive(Debug)]
pub struct KatzenpostGateway {
    pub id: String,
    pub address: String,
    pub identity_key: String,
    pub country: Option<String>,
    pub latency_ms: Option<u64>,
    pub healthy: bool,
    pub last_seen: Option<Timestamp>,
}

/// The value of a [`KatzenpostGateway`].
pub struct KatzenpostGatewayView {
    pub id: Seq<char>,
    pub address: Seq<char>,
    pub identity_key: Seq<char>,
    pub country: Option<Seq<char>>,
    pub latency_ms: Option<u64>,
    pub healthy: bool,
    pub last_seen: Option<Timestamp>,
}

impl View for KatzenpostGateway {
    type V = KatzenpostGatewayView;

    open spec fn view(&self) -> KatzenpostGatewayView {
        KatzenpostGatewayView {
            id: self.id@,
            address: self.address@,
            identity_key: self.identity_key@,
            country: self.country.deep_view(),
            latency_ms: self.latency_ms,
            healthy: self.healthy,
            last_seen: self.last_seen,
        }
    }
}

impl Clone for KatzenpostGateway {
    fn clone(&self) -> (r: Self)
        ensures
            r@ == self@,
    {
        KatzenpostGateway {
            id: self.id.clone(),
            address: self.address.clone(),
            identity_key: self.identity_key.clone(),
            country: self.country.clone(),
            latency_ms: self.latency_ms,
            healthy: self.healthy,
            last_seen: self.last_seen,
        }
    }
}

/// The key by which gateways are ranked: the measured latency, or the
/// largest value when none is known.
pub open spec fn gateway_rank(g: KatzenpostGatewayView) -> u64 {
    match g.latency_ms {
        Some(l) => l,
        None => u64::MAX,
    }
}

/// `gs[k]` is the best gateway of `gs`: it is healthy, no healthy gateway
/// ranks lower, and every healthy gateway before it ranks strictly higher.
pub open spec fn is_best_gateway(gs: Seq<KatzenpostGatewayView>, k: int) -> bool {
    &&& 0 <= k < gs.len()
    &&& gs[k].healthy
    &&& forall|j: int| 0 <= j < gs.len() && #[trigger] gs[j].healthy ==> gateway_rank(gs[k]) <= gateway_rank(gs[j])
    &&& forall|j: int| 0 <= j < k && #[trigger] gs[j].healthy ==> gateway_rank(gs[k]) < gateway_rank(gs[j])
}

/// The best gateway is healthy; it has a known latency whenever some healthy
/// gateway has a known latency below the largest value, and then that latency
/// is no higher than any known latency of a healthy gateway; and every healthy
/// gateway before it is strictly worse: of unknown latency while the best one's
/// is known, or of a strictly higher known latency.
pub proof fn lemma_best_gateway_ranks_known_latency_first(gs: Seq<KatzenpostGatewayView>, k: int)
    requires
        is_best_gateway(gs, k),
    ensures
        gs[k].healthy,
        forall|j: int|
            0 <= j < gs.len() && #[trigger] gs[j].healthy && gs[j].latency_ms is Some && gs[j].latency_ms->0
                < u64::MAX ==> gs[k].latency_ms is Some && gs[k].latency_ms->0 <= gs[j].latency_ms->0,
        gs[k].latency_ms is Some ==> forall|j: int|
            0 <= j < gs.len() && #[trigger] gs[j].healthy && gs[j].latency_ms is Some ==> gs[k].latency_ms->0
                <= gs[j].latency_ms->0,
        forall|j: int|
            0 <= j < k && #[trigger] gs[j].healthy ==> match (gs[j].latency_ms, gs[k].latency_ms) {
                (Some(lj), Some(lk)) => lk < lj,
                (None, Some(lk)) => lk < u64::MAX,
                (_, None) => false,
            },
{
    assert forall|j: int|
        0 <= j < gs.len() && #[trigger] gs[j].healthy && gs[j].latency_ms is Some && gs[j].latency_ms->0
            < u64::MAX implies gs[k].latency_ms is Some && gs[k].latency_ms->0 <= gs[j].latency_ms->0 by {
        assert(gateway_rank(gs[k]) <= gateway_rank(gs[j]));
    }
    if gs[k].latency_ms is Some {
        assert forall|j: int|
            0 <= j < gs.len() && #[trigger] gs[j].healthy && gs[j].latency_ms is Some implies gs[k].latency_ms->0
                <= gs[j].latency_ms->0 by {
            assert(gateway_rank(gs[k]) <= gateway_rank(gs[j]));
        }
    }
    assert forall|j: int| 0 <= j < k && #[trigger] gs[j].healthy implies match (gs[j].latency_ms, gs[k].latency_ms) {
        (Some(lj), Some(lk)) => lk < lj,
        (None, Some(lk)) => lk < u64::MAX,
        (_, None) => false,
    } by {
        assert(gateway_rank(gs[k]) < gateway_rank(gs[j]));
    }
}

/// At most one position of a gateway list is the best one.
pub proof fn lemma_best_gateway_unique(gs: Seq<KatzenpostGatewayView>, k1: int, k2: int)
    requires
        is_best_gateway(gs, k1),
        is_best_gateway(gs, k2),
    ensures
        k1 == k2,
{
    if k1 < k2 {
        assert(gs[k1].healthy);
    } else if k2 < k1 {
        assert(gs[k2].healthy);
    }
}

/// Discovers Katzenpost gateways from a configured list.
#[derive(Debug)]
pub struct KatzenpostGatewayDiscovery {
    gateways: Vec<KatzenpostGateway>,
}

impl View for KatzenpostGatewayDiscovery {
    type V = Seq<KatzenpostGatewayView>;

    closed spec fn view(&self) -> Seq<KatzenpostGatewayView> {
        self.gateways@.map_values(|g: KatzenpostGateway| g@)
    }
}

impl Clone for KatzenpostGatewayDiscovery {
    fn clone(&self) -> (r: Self)
        ensures
            r@ == self@,
    {
        let mut out: Vec<KatzenpostGateway> = Vec::new();
        let mut i: usize = 0;
        while i < self.gateways.len()
            invariant
                i <= self.gateways.len(),
                out@.map_values(|g: KatzenpostGateway| g@) == self@.take(i as int),
            decreases self.gateways.len() - i,
        {
            out.push(self.gateways[i].clone());
            proof {
                assert(self@.take((i + 1) as int) =~= self@.take(i as int).push(self@[i as int]));
            }
            i = i + 1;
            assert(out@.map_values(|g: KatzenpostGateway| g@) =~= self@.take(i as int));
        }
        assert(self@.take(i as int) =~= self@);
        KatzenpostGatewayDiscovery { gateways: out }
    }
}

impl Default for KatzenpostGatewayDiscovery {
    fn default() -> (r: Self)
        ensures
            r@ == Seq::<KatzenpostGatewayView>::empty(),
    {
        KatzenpostGatewayDiscovery { gateways: Vec::new() }
    }
}

impl KatzenpostGatewayDiscovery {
    /// A discovery over the configured `gateways`, in their order.
    pub fn from_gateways(gateways: Vec<KatzenpostGateway>) -> (r: Self)
        ensures
            r@ == gateways@.map_values(|g: KatzenpostGateway| g@),
    {
        KatzenpostGatewayDiscovery { gateways }
    }

    /// All configured gateways, in their order.
    pub fn gateways(&self) -> (r: &[KatzenpostGateway])
        ensures
            r@.map_values(|g: KatzenpostGateway| g@) == self@,
    {
        self.gateways.as_slice()
    }

    /// The healthy gateways, in their configured order.
    pub fn discover(&self) -> (r: Vec<KatzenpostGateway>)
        ensures
            r@.map_values(|g: KatzenpostGateway| g@) == self@.filter(
                |g: KatzenpostGatewayView| g.healthy,
            ),
    {
        let mut out: Vec<KatzenpostGateway> = Vec::new();
        let mut i: usize = 0;
        while i < self.gateways.len()
            invariant
                i <= self.gateways.len(),
                out@.map_values(|g: KatzenpostGateway| g@) == self@.take(i as int).filter(
                    |g: KatzenpostGatewayView| g.healthy,
                ),
            decreases self.gateways.len() - i,
        {
            proof {
                reveal_with_fuel(Seq::filter, 1);
                assert(self@.take((i + 1) as int).drop_last() =~= self@.take(i as int));
            }
            if self.gateways[i].healthy {
                out.push(self.gateways[i].clone());
            }
            i = i + 1;
            assert(out@.map_values(|g: KatzenpostGateway| g@) =~= self@.take(i as int).filter(
                |g: KatzenpostGatewayView| g.healthy,
            ));
        }
        assert(self@.take(i as int) =~= self@);
        out
    }

    /// The best gateway: the first healthy one of lowest latency, a gateway
    /// of unknown latency ranking last; `None` when no gateway is healthy.
    pub fn select_best(&self) -> (r: Option<KatzenpostGateway>)
        ensures
            r is None <==> forall|i: int| 0 <= i < self@.len() ==> !(#[trigger] self@[i]).healthy,
            r matches Some(g) ==> exists|k: int| is_best_gateway(self@, k) && g@ == self@[k],
    {
        let mut best: Option<usize> = None;
        let mut best_rank: u64 = 0;
        let mut i: usize = 0;
        while i < self.gateways.len()
            invariant
                i <= self.gateways.len(),
                best is None ==> forall|j: int| 0 <= j < i ==> !(#[trigger] self@[j]).healthy,
                best matches Some(b) ==> {
                    &&& b < i
                    &&& self@[b as int].healthy
                    &&& best_rank == gateway_rank(self@[b as int])
                    &&& forall|j: int| 0 <= j < i && #[trigger] self@[j].healthy ==> best_rank <= gateway_rank(self@[j])
                    &&& forall|j: int| 0 <= j < b && #[trigger] self@[j].healthy ==> best_rank < gateway_rank(self@[j])
                },
            decreases self.gateways.len() - i,
        {
            let g = &self.gateways[i];
            assert(self@[i as int] == g@);
            if g.healthy {
                let rank = match g.latency_ms {
                    Some(l) => l,
                    None => u64::MAX,
                };
                match best {
                    None => {
                        best = Some(i);
                        best_rank = rank;
                    },
                    Some(_) => {
                        if rank < best_rank {
                            best = Some(i);
                            best_rank = rank;
                        }
                    },
                }
            }
            i = i + 1;
        }
        match best {
            None => None,
            Some(b) => {
                let g = self.gateways[b].clone();
                assert(is_best_gateway(self@, b as int));
                Some(g)
            },
        }
    }
}

/// Active Katzenpost route.
#[derive(Debug, Clone)]
pub struct KatzenpostRoute {
    pub id: u128,
    pub profile_id: u128,
    pub entry_gateway: KatzenpostGateway,
    pub exit_gateway: KatzenpostGateway,
    pub hop_count: u32,
    pub hops: Vec<String>,
    pub socks_port: Option<u16>,
}

/// The value of a [`KatzenpostRoute`].
pub struct KatzenpostRouteView {
    pub id: u128,
    pub profile_id: u128,
    pub entry_gateway: KatzenpostGatewayView,
    pub exit_gateway: KatzenpostGatewayView,
    pub hop_count: u32,
    pub hops: Seq<Seq<char>>,
    pub socks_port: Option<u16>,
}

impl View for KatzenpostRoute {
    type V = KatzenpostRouteView;

    open spec fn view(&self) -> KatzenpostRouteView {
        KatzenpostRouteView {
            id: self.id,
            profile_id: self.profile_id,
            entry_gateway: self.entry_gateway@,
            exit_gateway: self.exit_gateway@,
            hop_count: self.hop_count,
            hops: self.hops.deep_view(),
            socks_port: self.socks_port,
        }
    }
}

/// The value of a [`KatzenpostBackend`].
pub struct KatzenpostBackendView {
    pub profile: AnonymityProfileView,
    pub gateways: Seq<KatzenpostGatewayView>,
    pub selected_gateway: Option<KatzenpostGatewayView>,
    pub listen_port: Option<u16>,
    pub running: bool,
    pub stub_mode: bool,
}

/// The gateway that stands in when none was selected: `katzenpost-stub` at
/// `127.0.0.1:0`, healthy, with a latency of 42 ms, last seen at `now`.
pub open spec fn stub_gateway(now: Timestamp) -> KatzenpostGatewayView {
    KatzenpostGatewayView {
        id: "katzenpost-stub"@,
        address: "127.0.0.1:0"@,
        identity_key: "stub"@,
        country: None,
        latency_ms: Some(42),
        healthy: true,
        last_seen: Some(now),
    }
}

/// The hops of every Katzenpost route.
pub open spec fn katzenpost_hops() -> Seq<Seq<char>> {
    seq!["katzenpost-entry"@, "katzenpost-exit"@]
}

/// Katzenpost backend state: the profile, the gateway discovery, the
/// selected gateway and the local SOCKS stub's port and run state.
#[derive(Debug)]
pub struct KatzenpostBackend {
    profile: AnonymityProfile,
    discovery: KatzenpostGatewayDiscovery,
    selected_gateway: Option<KatzenpostGateway>,
    listen_port: Option<u16>,
    running: bool,
    stub_mode: bool,
}

impl View for KatzenpostBackend {
    type V = KatzenpostBackendView;

    closed spec fn view(&self) -> KatzenpostBackendView {
        KatzenpostBackendView {
            profile: self.profile@,
            gateways: self.discovery@,
            selected_gateway: match self.selected_gateway {
                Some(g) => Some(g@),
                None => None,
            },
            listen_port: self.listen_port,
            running: self.running,
            stub_mode: self.stub_mode,
        }
    }
}

impl KatzenpostBackend {
    /// A stopped backend in stub mode, with no gateway selected yet.
    pub fn new(profile: AnonymityProfile, discovery: KatzenpostGatewayDiscovery) -> (r: Self)
        ensures
            r@.profile == profile@,
            r@.gateways == discovery@,
            r@.selected_gateway is None,
            r@.listen_port is None,
            !r@.running,
            r@.stub_mode,
    {
        KatzenpostBackend {
            profile,
            discovery,
            selected_gateway: None,
            listen_port: None,
            running: false,
            stub_mode: true,
        }
    }

    /// The provider identifier, `katzenpost`.
    pub fn provider_id(&self) -> (r: &'static str)
        ensures
            r@ == "katzenpost"@,
    {
        "katzenpost"
    }

    /// The backend's profile.
    pub fn profile(&self) -> (r: &AnonymityProfile)
        ensures
            r@ == self@.profile,
    {
        &self.profile
    }

    /// First step of starting: selects the best gateway of the discovery,
    /// keeping the former selection when no gateway is healthy.
    pub fn select_gateway(&mut self)
        ensures
            (exists|k: int| is_best_gateway(old(self)@.gateways, k)) ==> exists|k: int|
                is_best_gateway(old(self)@.gateways, k) && final(self)@.selected_gateway == Some(
                    old(self)@.gateways[k],
                ),
            (forall|k: int| !is_best_gateway(old(self)@.gateways, k)) ==> final(self)@.selected_gateway
                == old(self)@.selected_gateway,
            final(self)@.profile == old(self)@.profile,
            final(self)@.gateways == old(self)@.gateways,
            final(self)@.listen_port == old(self)@.listen_port,
            final(self)@.running == old(self)@.running,
            final(self)@.stub_mode == old(self)@.stub_mode,
    {
        let best = self.discovery.select_best();
        match best {
            Some(g) => {
                proof {
                    let k = choose|k: int| is_best_gateway(self.discovery@, k) && g@ == self.discovery@[k];
                    assert(is_best_gateway(old(self)@.gateways, k));
                }
                self.selected_gateway = Some(g);
            },
            None => {
                assert forall|k: int| !is_best_gateway(old(self)@.gateways, k) by {}
            },
        }
    }

    /// Second step of starting, once the local SOCKS stub listens on `port`:
    /// marks the backend running in stub mode on that port and returns the
    /// new session, with a fresh id, the current route and the current time.
    pub fn record_started(&mut self, port: u16) -> (r: AnonymitySession)
        ensures
            final(self)@ == (KatzenpostBackendView {
                listen_port: Some(port),
                running: true,
                stub_mode: true,
                ..old(self)@
            }),
            r@.profile_id == old(self)@.profile.id,
            is_random_uuid(r@.id),
            is_random_uuid(r@.route.id),
            r@.socks_port == port,
            r@.stub_mode,
            r@.route.profile_id == old(self)@.profile.id,
            r@.route.provider == AnonymityProvider::Katzenpost,
            r@.route.socks_port == Some(port),
            r@.route.entry_node == match old(self)@.selected_gateway {
                Some(g) => g.id,
                None => "katzenpost-stub"@,
            },
            r@.route.exit_node == r@.route.entry_node,
            r@.route.hop_count == 2,
            r@.route.hops == katzenpost_hops(),
    {
        self.listen_port = Some(port);
        self.running = true;
        self.stub_mode = true;
        let route = self.route_info();
        AnonymitySession {
            id: new_uuid(),
            profile_id: self.profile.id,
            route,
            socks_port: port,
            stub_mode: true,
            started_at: now(),
        }
    }

    /// Stops the backend: it no longer runs and listens on no port.
    pub fn stop(&mut self)
        ensures
            final(self)@ == (KatzenpostBackendView {
                listen_port: None,
                running: false,
                ..old(self)@
            }),
    {
        self.running = false;
        self.listen_port = None;
    }

    /// The live status of the backend.
    pub fn status(&self) -> (r: AnonymityStatus)
        ensures
            r@.running == self@.running,
            r@.stub_mode == self@.stub_mode,
            r@.socks_port == self@.listen_port,
            r@.profile_id == Some(self@.profile.id),
            r@.last_error is None,
    {
        AnonymityStatus {
            running: self.running,
            stub_mode: self.stub_mode,
            socks_port: self.listen_port,
            profile_id: Some(self.profile.id),
            last_error: None,
        }
    }

    /// Healthy while the backend runs, degraded otherwise.
    pub fn health(&self) -> (r: AnonymityHealth)
        ensures
            r@.healthy == self@.running,
            r@.latency_ms is None,
            r@.message == Some(
                if self@.running {
                    "katzenpost stub running"@
                } else {
                    "katzenpost stopped"@
                },
            ),
    {
        if self.running {
            AnonymityHealth::ok("katzenpost stub running")
        } else {
            AnonymityHealth::degraded("katzenpost stopped")
        }
    }

    /// The latency of the selected gateway, or 42 ms when none is selected or
    /// its latency is unknown.
    pub fn latency(&self) -> (r: u64)
        ensures
            r == match self@.selected_gateway {
                Some(g) => match g.latency_ms {
                    Some(l) => l,
                    None => 42,
                },
                None => 42,
            },
    {
        match &self.selected_gateway {
            Some(g) => match g.latency_ms {
                Some(l) => l,
                None => 42,
            },
            None => 42,
        }
    }

    /// The Katzenpost route through the selected gateway (or the stub gateway
    /// last seen at `now`) on `port`, with id `route_id`.
    pub fn build_route(&self, port: Option<u16>, route_id: u128, now: Timestamp) -> (r: KatzenpostRoute)
        ensures
            r@.id == route_id,
            r@.profile_id == self@.profile.id,
            r@.entry_gateway == match self@.selected_gateway {
                Some(g) => g,
                None => stub_gateway(now),
            },
            r@.exit_gateway == r@.entry_gateway,
            r@.hop_count == 2,
            r@.hops == katzenpost_hops(),
            r@.socks_port == port,
    {
        let gateway = match &self.selected_gateway {
            Some(g) => g.clone(),
            None => KatzenpostGateway {
                id: String::from_str("katzenpost-stub"),
                address: String::from_str("127.0.0.1:0"),
                identity_key: String::from_str("stub"),
                country: None,
                latency_ms: Some(42),
                healthy: true,
                last_seen: Some(now),
            },
        };
        let mut hops: Vec<String> = Vec::new();
        hops.push(String::from_str("katzenpost-entry"));
        hops.push(String::from_str("katzenpost-exit"));
        assert(hops.deep_view() =~= katzenpost_hops());
        KatzenpostRoute {
            id: route_id,
            profile_id: self.profile.id,
            entry_gateway: gateway.clone(),
            exit_gateway: gateway,
            hop_count: 2,
            hops,
            socks_port: port,
        }
    }

    /// The current route in the provider-neutral form, with a fresh id: entry
    /// and exit are the selected gateway (or `katzenpost-stub`), on the port
    /// the backend listens on.
    pub fn route_info(&self) -> (r: AnonymityRoute)
        ensures
            r@.profile_id == self@.profile.id,
            r@.provider == AnonymityProvider::Katzenpost,
            r@.entry_node == match self@.selected_gateway {
                Some(g) => g.id,
                None => "katzenpost-stub"@,
            },
            r@.exit_node == r@.entry_node,
            r@.hop_count == 2,
            r@.hops == katzenpost_hops(),
            r@.socks_port == self@.listen_port,
            is_random_uuid(r@.id),
    {
        let kp = self.build_route(self.listen_port, new_uuid(), now());
        AnonymityRoute {
            id: kp.id,
            profile_id: kp.profile_id,
            provider: AnonymityProvider::Katzenpost,
            entry_node: kp.entry_gateway.id.clone(),
            exit_node: kp.exit_gateway.id.clone(),
            hop_count: kp.hop_count,
            hops: kp.hops,
            socks_port: kp.socks_port,
        }
    }

    /// The privacy score: 0.40 in stub mode, 0.78 otherwise.
    pub fn privacy_score(&self) -> (r: Ratio)
        ensures
            r == (if self@.stub_mode {
                Ratio { num: 40, den: 100 }
            } else {
                Ratio { num: 78, den: 100 }
            }),
    {
        if self.stub_mode {
            Ratio::new(40, 100)
        } else {
            Ratio::new(78, 100)
        }
    }
}

} // verus!
