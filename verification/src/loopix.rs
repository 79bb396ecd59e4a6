use vstd::prelude::*;
use vstd::string::*;
use crate::ids::{is_random_uuid, new_uuid, now, Timestamp};
use crate::ratio::Ratio;
use crate::types::{
    AnonymityHealth, AnonymityProfile, AnonymityProfileView, AnonymityProvider, AnonymityRoute,
    AnonymitySession, AnonymityStatus,
};

verus! {

/// Loopix provider descriptor.
#[derive(Debug)]
pub struct LoopixProvider {
    pub id: String,
    pub address: String,
    pub public_key: String,
    pub layer: u8,
    pub latency_ms: Option<u64>,
    pub healthy: bool,
    pub last_seen: Option<Timestamp>,
}

/// The value of a [`LoopixProvider`].
pub struct LoopixProviderView {
    pub id: Seq<char>,
    pub address: Seq<char>,
    pub public_key: Seq<char>,
    pub layer: u8,
    pub latency_ms: Option<u64>,
    pub healthy: bool,
    pub last_seen: Option<Timestamp>,
}

impl View for LoopixProvider {
    type V = LoopixProviderView;

    open spec fn view(&self) -> LoopixProviderView {
        LoopixProviderView {
            id: self.id@,
            address: self.address@,
            public_key: self.public_key@,
            layer: self.layer,
            latency_ms: self.latency_ms,
            healthy: self.healthy,
            last_seen: self.last_seen,
        }
    }
}

impl Clone for LoopixProvider {
    fn clone(&self) -> (r: Self)
        ensures
            r@ == self@,
    {
        LoopixProvider {
            id: self.id.clone(),
            address: self.address.clone(),
            public_key: self.public_key.clone(),
            layer: self.layer,
            latency_ms: self.latency_ms,
            healthy: self.healthy,
            last_seen: self.last_seen,
        }
    }
}

/// The key by which providers are ranked: the measured latency, or the
/// largest value when none is known.
pub open spec fn provider_rank(g: LoopixProviderView) -> u64 {
    match g.latency_ms {
        Some(l) => l,
        None => u64::MAX,
    }
}

/// `gs[k]` is the best provider of `gs`: it is healthy, no healthy provider
/// ranks lower, and every healthy provider before it ranks strictly higher.
pub open spec fn is_best_provider(gs: Seq<LoopixProviderView>, k: int) -> bool {
    &&& 0 <= k < gs.len()
    &&& gs[k].healthy
    &&& forall|j: int| 0 <= j < gs.len() && #[trigger] gs[j].healthy ==> provider_rank(gs[k]) <= provider_rank(gs[j])
    &&& forall|j: int| 0 <= j < k && #[trigger] gs[j].healthy ==> provider_rank(gs[k]) < provider_rank(gs[j])
}

/// The best provider is healthy; it has a known latency whenever some healthy
/// provider has a known latency below the largest value, and then that latency
/// is no higher than any known latency of a healthy provider; and every healthy
/// provider before it is strictly worse: of unknown latency while the best one's
/// is known, or of a strictly higher known latency.
pub proof fn lemma_best_provider_ranks_known_latency_first(gs: Seq<LoopixProviderView>, k: int)
    requires
        is_best_provider(gs, k),
    ensures
        gs[k].healthy,
        forall|j: int|
            0 <= j < gs.len() && #[trigger] gs[j].healthy && gs[j].latency_ms is Some && gs[j].latency_ms->0
                < u64::MAX ==> gs[k].latency_ms is Some && gs[k].latency_ms->0 <= gs[j].latency_ms->0,
        gs[k].latency_ms is Some ==> forall|j: int|
            0 <= j < gs.len() && #[trigger] gs[j].healthy && gs[j].latency_ms is Some ==> gs[k].latency_ms->0
                <= gs[j].latency_ms->0,
        forall|j: int|
            0 <= j < k && #[trigger] gs[j].healthy ==> match (gs[j].latency_ms, gs[k].latency_ms) {
                (Some(lj), Some(lk)) => lk < lj,
                (None, Some(lk)) => lk < u64::MAX,
                (_, None) => false,
            },
{
    assert forall|j: int|
        0 <= j < gs.len() && #[trigger] gs[j].healthy && gs[j].latency_ms is Some && gs[j].latency_ms->0
            < u64::MAX implies gs[k].latency_ms is Some && gs[k].latency_ms->0 <= gs[j].latency_ms->0 by {
        assert(provider_rank(gs[k]) <= provider_rank(gs[j]));
    }
    if gs[k].latency_ms is Some {
        assert forall|j: int|
            0 <= j < gs.len() && #[trigger] gs[j].healthy && gs[j].latency_ms is Some implies gs[k].latency_ms->0
                <= gs[j].latency_ms->0 by {
            assert(provider_rank(gs[k]) <= provider_rank(gs[j]));
        }
    }
    assert forall|j: int| 0 <= j < k && #[trigger] gs[j].healthy implies match (gs[j].latency_ms, gs[k].latency_ms) {
        (Some(lj), Some(lk)) => lk < lj,
        (None, Some(lk)) => lk < u64::MAX,
        (_, None) => false,
    } by {
        assert(provider_rank(gs[k]) < provider_rank(gs[j]));
    }
}

/// At most one position of a provider list is the best one.
pub proof fn lemma_best_provider_unique(gs: Seq<LoopixProviderView>, k1: int, k2: int)
    requires
        is_best_provider(gs, k1),
        is_best_provider(gs, k2),
    ensures
        k1 == k2,
{
    if k1 < k2 {
        assert(gs[k1].healthy);
    } else if k2 < k1 {
        assert(gs[k2].healthy);
    }
}

/// Discovers Loopix providers from a configured list.
#[derive(Debug)]
pub struct LoopixProviderDiscovery {
    providers: Vec<LoopixProvider>,
}

impl View for LoopixProviderDiscovery {
    type V = Seq<LoopixProviderView>;

    closed spec fn view(&self) -> Seq<LoopixProviderView> {
        self.providers@.map_values(|g: LoopixProvider| g@)
    }
}

impl Clone for LoopixProviderDiscovery {
    fn clone(&self) -> (r: Self)
        ensures
            r@ == self@,
    {
        let mut out: Vec<LoopixProvider> = Vec::new();
        let mut i: usize = 0;
        while i < self.providers.len()
            invariant
                i <= self.providers.len(),
                out@.map_values(|g: LoopixProvider| g@) == self@.take(i as int),
            decreases self.providers.len() - i,
        {
            out.push(self.providers[i].clone());
            proof {
                assert(self@.take((i + 1) as int) =~= self@.take(i as int).push(self@[i as int]));
            }
            i = i + 1;
            assert(out@.map_values(|g: LoopixProvider| g@) =~= self@.take(i as int));
        }
        assert(self@.take(i as int) =~= self@);
        LoopixProviderDiscovery { providers: out }
    }
}

impl Default for LoopixProviderDiscovery {
    fn default() -> (r: Self)
        ensures
            r@ == Seq::<LoopixProviderView>::empty(),
    {
        LoopixProviderDiscovery { providers: Vec::new() }
    }
}

impl LoopixProviderDiscovery {
    /// A discovery over the configured `providers`, in their order.
    pub fn from_providers(providers: Vec<LoopixProvider>) -> (r: Self)
        ensures
            r@ == providers@.map_values(|g: LoopixProvider| g@),
    {
        LoopixProviderDiscovery { providers: providers }
    }

    /// All configured providers, in their order.
    pub fn providers(&self) -> (r: &[LoopixProvider])
        ensures
            r@.map_values(|g: LoopixProvider| g@) == self@,
    {
        self.providers.as_slice()
    }

    /// The healthy providers, in their configured order.
    pub fn discover(&self) -> (r: Vec<LoopixProvider>)
        ensures
            r@.map_values(|g: LoopixProvider| g@) == self@.filter(
                |g: LoopixProviderView| g.healthy,
            ),
    {
        let mut out: Vec<LoopixProvider> = Vec::new();
        let mut i: usize = 0;
        while i < self.providers.len()
            invariant
                i <= self.providers.len(),
                out@.map_values(|g: LoopixProvider| g@) == self@.take(i as int).filter(
                    |g: LoopixProviderView| g.healthy,
                ),
            decreases self.providers.len() - i,
        {
            proof {
                reveal_with_fuel(Seq::filter, 1);
                assert(self@.take((i + 1) as int).drop_last() =~= self@.take(i as int));
            }
            if self.providers[i].healthy {
                out.push(self.providers[i].clone());
            }
            i = i + 1;
            assert(out@.map_values(|g: LoopixProvider| g@) =~= self@.take(i as int).filter(
                |g: LoopixProviderView| g.healthy,
            ));
        }
        assert(self@.take(i as int) =~= self@);
        out
    }

    /// The best provider: the first healthy one of lowest latency, a provider
    /// of unknown latency ranking last; `None` when no provider is healthy.
    pub fn select_best(&self) -> (r: Option<LoopixProvider>)
        ensures
            r is None <==> forall|i: int| 0 <= i < self@.len() ==> !(#[trigger] self@[i]).healthy,
            r matches Some(g) ==> exists|k: int| is_best_provider(self@, k) && g@ == self@[k],
    {
        let mut best: Option<usize> = None;
        let mut best_rank: u64 = 0;
        let mut i: usize = 0;
        while i < self.providers.len()
            invariant
                i <= self.providers.len(),
                best is None ==> forall|j: int| 0 <= j < i ==> !(#[trigger] self@[j]).healthy,
                best matches Some(b) ==> {
                    &&& b < i
                    &&& self@[b as int].healthy
                    &&& best_rank == provider_rank(self@[b as int])
                    &&& forall|j: int| 0 <= j < i && #[trigger] self@[j].healthy ==> best_rank <= provider_rank(self@[j])
                    &&& forall|j: int| 0 <= j < b && #[trigger] self@[j].healthy ==> best_rank < provider_rank(self@[j])
                },
            decreases self.providers.len() - i,
        {
            let g = &self.providers[i];
            assert(self@[i as int] == g@);
            if g.healthy {
                let rank = match g.latency_ms {
                    Some(l) => l,
                    None => u64::MAX,
                };
                match best {
                    None => {
                        best = Some(i);
                        best_rank = rank;
                    },
                    Some(_) => {
                        if rank < best_rank {
                            best = Some(i);
                            best_rank = rank;
                        }
                    },
                }
            }
            i = i + 1;
        }
        match best {
            None => None,
            Some(b) => {
                let g = self.providers[b].clone();
                assert(is_best_provider(self@, b as int));
                Some(g)
            },
        }
    }
}

/// Active Loopix route.
#[derive(Debug, Clone)]
pub struct LoopixRoute {
    pub id: u128,
    pub profile_id: u128,
    pub entry_provider: LoopixProvider,
    pub exit_provider: LoopixProvider,
    pub hop_count: u32,
    pub hops: Vec<String>,
    pub socks_port: Option<u16>,
}

/// The value of a [`LoopixRoute`].
pub struct LoopixRouteView {
    pub id: u128,
    pub profile_id: u128,
    pub entry_provider: LoopixProviderView,
    pub exit_provider: LoopixProviderView,
    pub hop_count: u32,
    pub hops: Seq<Seq<char>>,
    pub socks_port: Option<u16>,
}

impl View for LoopixRoute {
    type V = LoopixRouteView;

    open spec fn view(&self) -> LoopixRouteView {
        LoopixRouteView {
            id: self.id,
            profile_id: self.profile_id,
            entry_provider: self.entry_provider@,
            exit_provider: self.exit_provider@,
            hop_count: self.hop_count,
            hops: self.hops.deep_view(),
            socks_port: self.socks_port,
        }
    }
}

/// The value of a [`LoopixBackend`].
pub struct LoopixBackendView {
    pub profile: AnonymityProfileView,
    pub providers: Seq<LoopixProviderView>,
    pub selected_provider: Option<LoopixProviderView>,
    pub listen_port: Option<u16>,
    pub running: bool,
    pub stub_mode: bool,
}

/// The provider that stands in when none was selected: `loopix-stub` at
/// `127.0.0.1:0`, layer 1, healthy, with a latency of 38 ms, last seen at `now`.
pub open spec fn stub_provider(now: Timestamp) -> LoopixProviderView {
    LoopixProviderView {
        id: "loopix-stub"@,
        address: "127.0.0.1:0"@,
        public_key: "stub"@,
        layer: 1,
        latency_ms: Some(38),
        healthy: true,
        last_seen: Some(now),
    }
}

/// The hops of every Loopix route.
pub open spec fn loopix_hops() -> Seq<Seq<char>> {
    seq!["loopix-entry"@, "loopix-mix"@, "loopix-exit"@]
}

/// Loopix backend state: the profile, the provider discovery, the
/// selected provider and the local SOCKS stub's port and run state.
#[derive(Debug)]
pub struct LoopixBackend {
    profile: AnonymityProfile,
    discovery: LoopixProviderDiscovery,
    selected_provider: Option<LoopixProvider>,
    listen_port: Option<u16>,
    running: bool,
    stub_mode: bool,
}

impl View for LoopixBackend {
    type V = LoopixBackendView;

    closed spec fn view(&self) -> LoopixBackendView {
        LoopixBackendView {
            profile: self.profile@,
            providers: self.discovery@,
            selected_provider: match self.selected_provider {
                Some(g) => Some(g@),
                None => None,
            },
            listen_port: self.listen_port,
            running: self.running,
            stub_mode: self.stub_mode,
        }
    }
}

impl LoopixBackend {
    /// A stopped backend in stub mode, with no provider selected yet.
    pub fn new(profile: AnonymityProfile, discovery: LoopixProviderDiscovery) -> (r: Self)
        ensures
            r@.profile == profile@,
            r@.providers == discovery@,
            r@.selected_provider is None,
            r@.listen_port is None,
            !r@.running,
            r@.stub_mode,
    {
        LoopixBackend {
            profile,
            discovery,
            selected_provider: None,
            listen_port: None,
            running: false,
            stub_mode: true,
        }
    }

    /// The provider identifier, `loopix`.
    pub fn provider_id(&self) -> (r: &'static str)
        ensures
            r@ == "loopix"@,
    {
        "loopix"
    }

    /// The backend's profile.
    pub fn profile(&self) -> (r: &AnonymityProfile)
        ensures
            r@ == self@.profile,
    {
        &self.profile
    }

    /// First step of starting: selects the best provider of the discovery,
    /// keeping the former selection when no provider is healthy.
    pub fn select_provider(&mut self)
        ensures
            (exists|k: int| is_best_provider(old(self)@.providers, k)) ==> exists|k: int|
                is_best_provider(old(self)@.providers, k) && final(self)@.selected_provider == Some(
                    old(self)@.providers[k],
                ),
            (forall|k: int| !is_best_provider(old(self)@.providers, k)) ==> final(self)@.selected_provider
                == old(self)@.selected_provider,
            final(self)@.profile == old(self)@.profile,
            final(self)@.providers == old(self)@.providers,
            final(self)@.listen_port == old(self)@.listen_port,
            final(self)@.running == old(self)@.running,
            final(self)@.stub_mode == old(self)@.stub_mode,
    {
        let best = self.discovery.select_best();
        match best {
            Some(g) => {
                proof {
                    let k = choose|k: int| is_best_provider(self.discovery@, k) && g@ == self.discovery@[k];
                    assert(is_best_provider(old(self)@.providers, k));
                }
                self.selected_provider = Some(g);
            },
            None => {
                assert forall|k: int| !is_best_provider(old(self)@.providers, k) by {}
            },
        }
    }

    /// Second step of starting, once the local SOCKS stub listens on `port`:
    /// marks the backend running in stub mode on that port and returns the
    /// new session, with a fresh id, the current route and the current time.
    pub fn record_started(&mut self, port: u16) -> (r: AnonymitySession)
        ensures
            final(self)@ == (LoopixBackendView {
                listen_port: Some(port),
                running: true,
                stub_mode: true,
                ..old(self)@
            }),
            r@.profile_id == old(self)@.profile.id,
            is_random_uuid(r@.id),
            is_random_uuid(r@.route.id),
            r@.socks_port == port,
            r@.stub_mode,
            r@.route.profile_id == old(self)@.profile.id,
            r@.route.provider == AnonymityProvider::Loopix,
            r@.route.socks_port == Some(port),
            r@.route.entry_node == match old(self)@.selected_provider {
                Some(g) => g.id,
                None => "loopix-stub"@,
            },
            r@.route.exit_node == r@.route.entry_node,
            r@.route.hop_count == 3,
            r@.route.hops == loopix_hops(),
    {
        self.listen_port = Some(port);
        self.running = true;
        self.stub_mode = true;
        let route = self.route_info();
        AnonymitySession {
            id: new_uuid(),
            profile_id: self.profile.id,
            route,
            socks_port: port,
            stub_mode: true,
            started_at: now(),
        }
    }

    /// Stops the backend: it no longer runs and listens on no port.
    pub fn stop(&mut self)
        ensures
            final(self)@ == (LoopixBackendView {
                listen_port: None,
                running: false,
                ..old(self)@
            }),
    {
        self.running = false;
        self.listen_port = None;
    }

    /// The live status of the backend.
    pub fn status(&self) -> (r: AnonymityStatus)
        ensures
            r@.running == self@.running,
            r@.stub_mode == self@.stub_mode,
            r@.socks_port == self@.listen_port,
            r@.profile_id == Some(self@.profile.id),
            r@.last_error is None,
    {
        AnonymityStatus {
            running: self.running,
            stub_mode: self.stub_mode,
            socks_port: self.listen_port,
            profile_id: Some(self.profile.id),
            last_error: None,
        }
    }

    /// Healthy while the backend runs, degraded otherwise.
    pub fn health(&self) -> (r: AnonymityHealth)
        ensures
            r@.healthy == self@.running,
            r@.latency_ms is None,
            r@.message == Some(
                if self@.running {
                    "loopix stub running"@
                } else {
                    "loopix stopped"@
                },
            ),
    {
        if self.running {
            AnonymityHealth::ok("loopix stub running")
        } else {
            AnonymityHealth::degraded("loopix stopped")
        }
    }

    /// The latency of the selected provider, or 38 ms when none is selected or
    /// its latency is unknown.
    pub fn latency(&self) -> (r: u64)
        ensures
            r == match self@.selected_provider {
                Some(g) => match g.latency_ms {
                    Some(l) => l,
                    None => 38,
                },
                None => 38,
            },
    {
        match &self.selected_provider {
            Some(g) => match g.latency_ms {
                Some(l) => l,
                None => 38,
            },
            None => 38,
        }
    }

    /// The Loopix route through the selected provider (or the stub provider
    /// last seen at `now`) on `port`, with id `route_id`.
    pub fn build_route(&self, port: Option<u16>, route_id: u128, now: Timestamp) -> (r: LoopixRoute)
        ensures
            r@.id == route_id,
            r@.profile_id == self@.profile.id,
            r@.entry_provider == match self@.selected_provider {
                Some(g) => g,
                None => stub_provider(now),
            },
            r@.exit_provider == r@.entry_provider,
            r@.hop_count == 3,
            r@.hops == loopix_hops(),
            r@.socks_port == port,
    {
        let provider = match &self.selected_provider {
            Some(g) => g.clone(),
            None => LoopixProvider {
                id: String::from_str("loopix-stub"),
                address: String::from_str("127.0.0.1:0"),
                public_key: String::from_str("stub"),
                layer: 1,
                latency_ms: Some(38),
                healthy: true,
                last_seen: Some(now),
            },
        };
        let mut hops: Vec<String> = Vec::new();
        hops.push(String::from_str("loopix-entry"));
        hops.push(String::from_str("loopix-mix"));
        hops.push(String::from_str("loopix-exit"));
        assert(hops.deep_view() =~= loopix_hops());
        LoopixRoute {
            id: route_id,
            profile_id: self.profile.id,
            entry_provider: provider.clone(),
            exit_provider: provider,
            hop_count: 3,
            hops,
            socks_port: port,
        }
    }

    /// The current route in the provider-neutral form, with a fresh id: entry
    /// and exit are the selected provider (or `loopix-stub`), on the port
    /// the backend listens on.
    pub fn route_info(&self) -> (r: AnonymityRoute)
        ensures
            r@.profile_id == self@.profile.id,
            r@.provider == AnonymityProvider::Loopix,
            r@.entry_node == match self@.selected_provider {
                Some(g) => g.id,
                None => "loopix-stub"@,
            },
            r@.exit_node == r@.entry_node,
            r@.hop_count == 3,
            r@.hops == loopix_hops(),
            r@.socks_port == self@.listen_port,
            is_random_uuid(r@.id),
    {
        let lp = self.build_route(self.listen_port, new_uuid(), now());
        AnonymityRoute {
            id: lp.id,
            profile_id: lp.profile_id,
            provider: AnonymityProvider::Loopix,
            entry_node: lp.entry_provider.id.clone(),
            exit_node: lp.exit_provider.id.clone(),
            hop_count: lp.hop_count,
            hops: lp.hops,
            socks_port: lp.socks_port,
        }
    }

    /// The privacy score: 0.42 in stub mode, 0.80 otherwise.
    pub fn privacy_score(&self) -> (r: Ratio)
        ensures
            r == (if self@.stub_mode {
                Ratio { num: 42, den: 100 }
            } else {
                Ratio { num: 80, den: 100 }
            }),
    {
        if self.stub_mode {
            Ratio::new(42, 100)
        } else {
            Ratio::new(80, 100)
        }
    }
}

} // verus!
