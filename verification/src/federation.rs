use vstd::prelude::*;
use vstd::string::*;
use crate::distinct::{distinct_count, lemma_distinct_count, texts_are_distinct};
use crate::ids::{is_random_uuid, new_uuid};
use crate::types::{
    AnonymityProfile, AnonymityProfileView, AnonymityProvider, AnonymityRoute,
    AnonymityRouteView,
};

verus! {

/// Registered provider in a federated mixnet deployment: its id, the
/// profile of its backend and the backend's provider identifier.
#[derive(Debug)]
pub struct FederatedProvider {
    pub id: u128,
    pub profile: AnonymityProfile,
    pub provider_id: String,
}

/// The value of a [`FederatedProvider`].
pub struct FederatedProviderView {
    pub id: u128,
    pub profile: AnonymityProfileView,
    pub provider_id: Seq<char>,
}

impl View for FederatedProvider {
    type V = FederatedProviderView;

    open spec fn view(&self) -> FederatedProviderView {
        FederatedProviderView { id: self.id, profile: self.profile@, provider_id: self.provider_id@ }
    }
}

impl Clone for FederatedProvider {
    fn clone(&self) -> (r: Self)
        ensures
            r@ == self@,
    {
        FederatedProvider {
            id: self.id,
            profile: self.profile.clone(),
            provider_id: self.provider_id.clone(),
        }
    }
}

/// Result of cross-mixnet route validation.
#[derive(Debug, Clone)]
pub struct FederationValidation {
    pub valid: bool,
    pub providers: Vec<String>,
    pub hop_count: u32,
    pub message: Option<String>,
}

/// The value of a [`FederationValidation`].
pub struct FederationValidationView {
    pub valid: bool,
    pub providers: Seq<Seq<char>>,
    pub hop_count: u32,
    pub message: Option<Seq<char>>,
}

impl View for FederationValidation {
    type V = FederationValidationView;

    open spec fn view(&self) -> FederationValidationView {
        FederationValidationView {
            valid: self.valid,
            providers: self.providers.deep_view(),
            hop_count: self.hop_count,
            message: self.message.deep_view(),
        }
    }
}

/// A route is a valid cross-mixnet route when it has at least two hops
/// counted, a non-empty hop list, and is either federated or repeats no hop.
pub open spec fn cross_mixnet_valid(route: AnonymityRouteView) -> bool {
    &&& route.hop_count >= 2
    &&& route.hops.len() > 0
    &&& (route.provider == AnonymityProvider::Federated || distinct_count(route.hops) == route.hops.len())
}

/// The provider identifiers of a registry, in registry order.
pub open spec fn provider_ids(providers: Seq<FederatedProviderView>) -> Seq<Seq<char>> {
    providers.map_values(|p: FederatedProviderView| p.provider_id)
}

/// `route` as the federation manager hands it out over `providers`: with
/// more than one provider it becomes a federated route whose hops are the
/// providers' identifiers and whose hop count is their number; otherwise it
/// is unchanged.
pub open spec fn federated(route: AnonymityRouteView, providers: Seq<FederatedProviderView>) -> AnonymityRouteView {
    if providers.len() > 1 {
        AnonymityRouteView {
            provider: AnonymityProvider::Federated,
            hop_count: providers.len() as u32,
            hops: provider_ids(providers),
            ..route
        }
    } else {
        route
    }
}

/// Cross-mixnet validation accepts a route exactly when it counts at least
/// two hops, lists at least one hop, and is federated or has no hop that
/// occurs twice anywhere in its list; in particular any repeated hop, next to
/// each other or not, makes a non-federated route invalid.
pub proof fn lemma_cross_mixnet_validation(route: AnonymityRouteView)
    ensures
        cross_mixnet_valid(route) <==> {
            &&& route.hop_count >= 2
            &&& route.hops.len() > 0
            &&& (route.provider == AnonymityProvider::Federated || forall|i: int, j: int|
                0 <= i < route.hops.len() && 0 <= j < route.hops.len() && i != j ==> #[trigger] route.hops[i]
                    != #[trigger] route.hops[j])
        },
        forall|i: int, j: int|
            0 <= i < j < route.hops.len() && route.provider != AnonymityProvider::Federated
                && #[trigger] route.hops[i] == #[trigger] route.hops[j] ==> !cross_mixnet_valid(route),
{
    lemma_distinct_count(route.hops);
}

/// The route handed out over more than one provider keeps the chosen
/// route's id, profile, entry, exit and SOCKS port, becomes federated, counts
/// the providers (cut to 32 bits) as hops, and lists the providers'
/// identifiers in registry order as its hops; over one provider or none it
/// is the chosen route itself.
pub proof fn lemma_federated_route_fields(route: AnonymityRouteView, providers: Seq<FederatedProviderView>)
    ensures
        providers.len() <= 1 ==> federated(route, providers) == route,
        providers.len() > 1 ==> {
            let out = federated(route, providers);
            &&& out.id == route.id
            &&& out.profile_id == route.profile_id
            &&& out.entry_node == route.entry_node
            &&& out.exit_node == route.exit_node
            &&& out.socks_port == route.socks_port
            &&& out.provider == AnonymityProvider::Federated
            &&& out.hop_count == providers.len() as u32
            &&& out.hops.len() == providers.len()
            &&& forall|i: int| 0 <= i < providers.len() ==> #[trigger] out.hops[i] == providers[i].provider_id
        },
{
}

/// A route federated over at least two providers passes cross-mixnet
/// validation, unless the provider count, cut down to the 32-bit hop count,
/// falls below two.
pub proof fn lemma_federated_route_is_valid(route: AnonymityRouteView, providers: Seq<FederatedProviderView>)
    requires
        providers.len() >= 2,
        providers.len() as u32 >= 2,
    ensures
        cross_mixnet_valid(federated(route, providers)),
{
}

/// Some provider of `providers` has id `id`.
pub open spec fn has_provider(providers: Seq<FederatedProviderView>, id: u128) -> bool {
    exists|i: int| 0 <= i < providers.len() && (#[trigger] providers[i]).id == id
}

/// No two providers of `providers` share an id.
pub open spec fn distinct_provider_ids(providers: Seq<FederatedProviderView>) -> bool {
    forall|i: int, j: int|
        0 <= i < providers.len() && 0 <= j < providers.len() && i != j ==> (#[trigger] providers[i]).id
            != (#[trigger] providers[j]).id
}

/// `providers` after registering `p`: the provider of the same id is
/// replaced in place, or `p` is appended when its id is new.
pub open spec fn upsert_provider(providers: Seq<FederatedProviderView>, p: FederatedProviderView) -> Seq<
    FederatedProviderView,
> {
    if has_provider(providers, p.id) {
        let k = choose|k: int| 0 <= k < providers.len() && (#[trigger] providers[k]).id == p.id;
        providers.update(k, p)
    } else {
        providers.push(p)
    }
}

/// After registering a provider, exactly one provider carries its id and it
/// is the registered one; a new id adds one provider, a known id keeps the
/// count.
pub proof fn lemma_upsert_provider(providers: Seq<FederatedProviderView>, p: FederatedProviderView)
    requires
        distinct_provider_ids(providers),
    ensures
        distinct_provider_ids(upsert_provider(providers, p)),
        has_provider(upsert_provider(providers, p), p.id),
        forall|i: int|
            0 <= i < upsert_provider(providers, p).len() && (#[trigger] upsert_provider(providers, p)[i]).id
                == p.id ==> upsert_provider(providers, p)[i] == p,
        has_provider(providers, p.id) ==> upsert_provider(providers, p).len() == providers.len(),
        !has_provider(providers, p.id) ==> upsert_provider(providers, p).len() == providers.len() + 1,
{
    if has_provider(providers, p.id) {
        let k = choose|k: int| 0 <= k < providers.len() && (#[trigger] providers[k]).id == p.id;
        assert(upsert_provider(providers, p)[k] == p);
    } else {
        assert(upsert_provider(providers, p)[providers.len() as int] == p);
    }
}

/// Manages the providers of a federated deployment across mixnets.
#[derive(Debug)]
pub struct MixnetFederationManager {
    providers: Vec<FederatedProvider>,
}

impl View for MixnetFederationManager {
    type V = Seq<FederatedProviderView>;

    closed spec fn view(&self) -> Seq<FederatedProviderView> {
        self.providers@.map_values(|p: FederatedProvider| p@)
    }
}

impl MixnetFederationManager {
    #[verifier::type_invariant]
    closed spec fn ids_distinct(&self) -> bool {
        distinct_provider_ids(self@)
    }

    /// A manager with no providers.
    pub fn new() -> (r: Self)
        ensures
            r@ == Seq::<FederatedProviderView>::empty(),
    {
        let r = MixnetFederationManager { providers: Vec::new() };
        assert(r@ =~= Seq::<FederatedProviderView>::empty());
        r
    }

    /// Registers a backend, given by its profile and provider identifier,
    /// under a fresh random id, and returns the id.
    pub fn register(&mut self, profile: AnonymityProfile, provider_id: &str) -> (id: u128)
        ensures
            is_random_uuid(id),
            final(self)@ == upsert_provider(
                old(self)@,
                FederatedProviderView { id, profile: profile@, provider_id: provider_id@ },
            ),
    {
        let id = new_uuid();
        let p = FederatedProvider { id, profile, provider_id: String::from_str(provider_id) };
        self.insert_provider(p);
        id
    }

    fn insert_provider(&mut self, p: FederatedProvider)
        ensures
            final(self)@ == upsert_provider(old(self)@, p@),
    {
        proof {
            use_type_invariant(&*self);
        }
        let ghost before = self@;
        let mut i: usize = 0;
        while i < self.providers.len()
            invariant
                i <= self.providers.len(),
                self@ == before,
                before == old(self)@,
                distinct_provider_ids(before),
                forall|j: int| 0 <= j < i ==> (#[trigger] before[j]).id != p.id,
            decreases self.providers.len() - i,
        {
            if self.providers[i].id == p.id {
                proof {
                    assert(before[i as int].id == p.id);
                    let k = choose|k: int| 0 <= k < before.len() && (#[trigger] before[k]).id == p.id;
                    assert(k == i);
                    lemma_upsert_provider(before, p@);
                }
                let mut providers: Vec<FederatedProvider> = Vec::new();
                std::mem::swap(&mut providers, &mut self.providers);
                providers.set(i, p);
                proof {
                    assert(providers@.map_values(|q: FederatedProvider| q@) =~= upsert_provider(before, p@));
                }
                self.providers = providers;
                return;
            }
            i = i + 1;
        }
        proof {
            assert(!has_provider(before, p.id));
            lemma_upsert_provider(before, p@);
        }
        let mut providers: Vec<FederatedProvider> = Vec::new();
        std::mem::swap(&mut providers, &mut self.providers);
        providers.push(p);
        proof {
            assert(providers@.map_values(|q: FederatedProvider| q@) =~= upsert_provider(before, p@));
        }
        self.providers = providers;
    }

    /// The registered providers, in registry order.
    pub fn providers(&self) -> (r: Vec<FederatedProvider>)
        ensures
            r@.map_values(|p: FederatedProvider| p@) == self@,
    {
        let mut out: Vec<FederatedProvider> = Vec::new();
        let mut i: usize = 0;
        while i < self.providers.len()
            invariant
                i <= self.providers.len(),
                out@.map_values(|p: FederatedProvider| p@) == self@.take(i as int),
            decreases self.providers.len() - i,
        {
            out.push(self.providers[i].clone());
            proof {
                assert(self@.take((i + 1) as int) =~= self@.take(i as int).push(self@[i as int]));
                assert(self@[i as int] == self.providers@[i as int]@);
            }
            i = i + 1;
            assert(out@.map_values(|p: FederatedProvider| p@) =~= self@.take(i as int));
        }
        assert(self@.take(i as int) =~= self@);
        out
    }

    /// The profiles of the registered providers, in registry order.
    pub fn discover(&self) -> (r: Vec<AnonymityProfile>)
        ensures
            r@.map_values(|p: AnonymityProfile| p@) == self@.map_values(|p: FederatedProviderView| p.profile),
    {
        let mut out: Vec<AnonymityProfile> = Vec::new();
        let mut i: usize = 0;
        while i < self.providers.len()
            invariant
                i <= self.providers.len(),
                out@.len() == i,
                forall|k: int| 0 <= k < i ==> (#[trigger] out@[k])@ == self@[k].profile,
            decreases self.providers.len() - i,
        {
            out.push(self.providers[i].profile.clone());
            i = i + 1;
        }
        assert(out@.map_values(|p: AnonymityProfile| p@) =~= self@.map_values(|p: FederatedProviderView| p.profile));
        out
    }

    fn provider_id_list(&self) -> (r: Vec<String>)
        ensures
            r.deep_view() == provider_ids(self@),
    {
        let mut out: Vec<String> = Vec::new();
        let mut i: usize = 0;
        while i < self.providers.len()
            invariant
                i <= self.providers.len(),
                out@.len() == i,
                forall|k: int| 0 <= k < i ==> (#[trigger] out@[k])@ == self@[k].provider_id,
            decreases self.providers.len() - i,
        {
            out.push(self.providers[i].provider_id.clone());
            i = i + 1;
        }
        assert(out.deep_view() =~= provider_ids(self@));
        out
    }

    /// The route that the manager hands out for `route`, the route of the
    /// provider chosen as best: federated over all registered providers when
    /// there is more than one, unchanged otherwise.
    pub fn federate_route(&self, route: AnonymityRoute) -> (r: AnonymityRoute)
        ensures
            r@ == federated(route@, self@),
    {
        let n = self.providers.len();
        if n > 1 {
            let hops = self.provider_id_list();
            let r = AnonymityRoute {
                provider: AnonymityProvider::Federated,
                hop_count: n as u32,
                hops,
                ..route
            };
            assert(r@ == federated(route@, self@));
            r
        } else {
            route
        }
    }

    /// Validates `route` as a cross-mixnet route and reports the identifiers
    /// of the registered providers with it.
    pub fn validate_cross_mixnet(&self, route: &AnonymityRoute) -> (r: FederationValidation)
        ensures
            r@.valid == cross_mixnet_valid(route@),
            r@.providers == provider_ids(self@),
            r@.hop_count == route@.hop_count,
            r@.message == Some(
                if cross_mixnet_valid(route@) {
                    "cross-mixnet route validated"@
                } else {
                    "invalid federated route"@
                },
            ),
    {
        let providers = self.provider_id_list();
        let distinct = texts_are_distinct(&route.hops);
        proof {
            lemma_distinct_count(route@.hops);
        }
        let valid = route.hop_count >= 2 && route.hops.len() > 0 && (route.provider
            == AnonymityProvider::Federated || distinct);
        let message = if valid {
            String::from_str("cross-mixnet route validated")
        } else {
            String::from_str("invalid federated route")
        };
        FederationValidation { valid, providers, hop_count: route.hop_count, message: Some(message) }
    }
}

impl Default for MixnetFederationManager {
    fn default() -> (r: Self)
        ensures
            r@ == Seq::<FederatedProviderView>::empty(),
    {
        MixnetFederationManager::new()
    }
}

} // verus!
