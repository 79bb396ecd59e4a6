use vstd::prelude::*;
use vstd::string::*;
use crate::ids::{is_random_uuid, new_uuid, now, Timestamp};
use crate::types::{AnonymityHealth, AnonymityProfile, AnonymityProfileView};

verus! {

/// Registered anonymous service endpoint.
#[derive(Debug)]
pub struct DiscoveredService {
    pub id: u128,
    pub profile: AnonymityProfile,
    pub endpoint: String,
    pub registered_at: Timestamp,
}

/// The value of a [`DiscoveredService`].
pub struct DiscoveredServiceView {
    pub id: u128,
    pub profile: AnonymityProfileView,
    pub endpoint: Seq<char>,
    pub registered_at: Timestamp,
}

impl View for DiscoveredService {
    type V = DiscoveredServiceView;

    open spec fn view(&self) -> DiscoveredServiceView {
        DiscoveredServiceView {
            id: self.id,
            profile: self.profile@,
            endpoint: self.endpoint@,
            registered_at: self.registered_at,
        }
    }
}

impl Clone for DiscoveredService {
    fn clone(&self) -> (r: Self)
        ensures
            r@ == self@,
    {
        DiscoveredService {
            id: self.id,
            profile: self.profile.clone(),
            endpoint: self.endpoint.clone(),
            registered_at: self.registered_at,
        }
    }
}

/// Some service of `services` has id `id`.
pub open spec fn has_service(services: Seq<DiscoveredServiceView>, id: u128) -> bool {
    exists|i: int| 0 <= i < services.len() && (#[trigger] services[i]).id == id
}

/// No two services of `services` share an id.
pub open spec fn distinct_service_ids(services: Seq<DiscoveredServiceView>) -> bool {
    forall|i: int, j: int|
        0 <= i < services.len() && 0 <= j < services.len() && i != j ==> (#[trigger] services[i]).id
            != (#[trigger] services[j]).id
}

/// `services` after registering `svc`: the service of the same id is
/// replaced in place, or `svc` is appended when its id is new.
pub open spec fn upsert_service(services: Seq<DiscoveredServiceView>, svc: DiscoveredServiceView) -> Seq<
    DiscoveredServiceView,
> {
    if has_service(services, svc.id) {
        let k = choose|k: int| 0 <= k < services.len() && (#[trigger] services[k]).id == svc.id;
        services.update(k, svc)
    } else {
        services.push(svc)
    }
}

/// After registering a service, exactly one service carries its id and it is
/// the registered one; registering a new id adds one service and registering
/// a known id keeps the count, and every other service is kept.
pub proof fn lemma_upsert_service(services: Seq<DiscoveredServiceView>, svc: DiscoveredServiceView)
    requires
        distinct_service_ids(services),
    ensures
        distinct_service_ids(upsert_service(services, svc)),
        has_service(upsert_service(services, svc), svc.id),
        forall|i: int|
            0 <= i < upsert_service(services, svc).len() && (#[trigger] upsert_service(services, svc)[i]).id
                == svc.id ==> upsert_service(services, svc)[i] == svc,
        has_service(services, svc.id) ==> upsert_service(services, svc).len() == services.len(),
        !has_service(services, svc.id) ==> upsert_service(services, svc).len() == services.len() + 1,
        forall|i: int|
            0 <= i < services.len() && (#[trigger] services[i]).id != svc.id ==> upsert_service(services, svc).contains(
                services[i],
            ),
{
    let out = upsert_service(services, svc);
    if has_service(services, svc.id) {
        let k = choose|k: int| 0 <= k < services.len() && (#[trigger] services[k]).id == svc.id;
        assert(out[k] == svc);
        assert forall|i: int| 0 <= i < services.len() && (#[trigger] services[i]).id != svc.id implies out.contains(services[i]) by {
            assert(out[i] == services[i]);
        }
    } else {
        assert(out[services.len() as int] == svc);
        assert forall|i: int| 0 <= i < services.len() && (#[trigger] services[i]).id != svc.id implies out.contains(services[i]) by {
            assert(out[i] == services[i]);
        }
    }
}

/// In-memory discovery registry for anonymity providers.
#[derive(Debug)]
pub struct AnonymousDiscoveryEngine {
    services: Vec<DiscoveredService>,
}

impl View for AnonymousDiscoveryEngine {
    type V = Seq<DiscoveredServiceView>;

    closed spec fn view(&self) -> Seq<DiscoveredServiceView> {
        self.services@.map_values(|s: DiscoveredService| s@)
    }
}

impl AnonymousDiscoveryEngine {
    #[verifier::type_invariant]
    closed spec fn ids_distinct(&self) -> bool {
        distinct_service_ids(self@)
    }

    /// An empty registry.
    pub fn new() -> (r: Self)
        ensures
            r@ == Seq::<DiscoveredServiceView>::empty(),
    {
        let r = AnonymousDiscoveryEngine { services: Vec::new() };
        assert(r@ =~= Seq::<DiscoveredServiceView>::empty());
        r
    }

    /// Registers a service for `profile` at `endpoint` under a fresh random
    /// id, stamped with the current time, and returns the id.
    pub fn register(&mut self, profile: AnonymityProfile, endpoint: &str) -> (id: u128)
        ensures
            is_random_uuid(id),
            exists|t: Timestamp|
                final(self)@ == upsert_service(
                    old(self)@,
                    DiscoveredServiceView {
                        id,
                        profile: profile@,
                        endpoint: endpoint@,
                        registered_at: t,
                    },
                ),
    {
        let id = new_uuid();
        let now = now();
        let svc = DiscoveredService { id, profile, endpoint: String::from_str(endpoint), registered_at: now };
        self.insert_service(svc);
        id
    }

    fn insert_service(&mut self, svc: DiscoveredService)
        ensures
            final(self)@ == upsert_service(old(self)@, svc@),
    {
        proof {
            use_type_invariant(&*self);
        }
        let ghost before = self@;
        let mut i: usize = 0;
        while i < self.services.len()
            invariant
                i <= self.services.len(),
                self@ == before,
                before == old(self)@,
                distinct_service_ids(before),
                forall|j: int| 0 <= j < i ==> (#[trigger] before[j]).id != svc.id,
            decreases self.services.len() - i,
        {
            if self.services[i].id == svc.id {
                proof {
                    assert(before[i as int].id == svc.id);
                    let k = choose|k: int| 0 <= k < before.len() && (#[trigger] before[k]).id == svc.id;
                    assert(k == i);
                    lemma_upsert_service(before, svc@);
                }
                let mut services: Vec<DiscoveredService> = Vec::new();
        std::mem::swap(&mut services, &mut self.services);
                services.set(i, svc);
                proof {
                    assert(services@.map_values(|s: DiscoveredService| s@) =~= upsert_service(before, svc@));
                }
                self.services = services;
                assert(self@ == upsert_service(before, svc@));
                assert(before == old(self)@);
                return;
            }
            i = i + 1;
        }
        proof {
            assert(!has_service(before, svc.id));
            lemma_upsert_service(before, svc@);
        }
        let mut services: Vec<DiscoveredService> = Vec::new();
        std::mem::swap(&mut services, &mut self.services);
        services.push(svc);
        proof {
            assert(services@.map_values(|s: DiscoveredService| s@) =~= upsert_service(before, svc@));
        }
        self.services = services;
    }

    /// All registered services.
    pub fn discover(&self) -> (r: Vec<DiscoveredService>)
        ensures
            r@.map_values(|s: DiscoveredService| s@) == self@,
    {
        let mut out: Vec<DiscoveredService> = Vec::new();
        let mut i: usize = 0;
        while i < self.services.len()
            invariant
                i <= self.services.len(),
                out@.map_values(|s: DiscoveredService| s@) == self@.take(i as int),
            decreases self.services.len() - i,
        {
            out.push(self.services[i].clone());
            proof {
                assert(self@.take((i + 1) as int) =~= self@.take(i as int).push(self@[i as int]));
            }
            i = i + 1;
            assert(out@.map_values(|s: DiscoveredService| s@) =~= self@.take(i as int));
        }
        assert(self@.take(i as int) =~= self@);
        out
    }

    /// The registered services whose profile's provider has the identifier
    /// text `provider_id`, in registry order.
    pub fn discover_by_provider(&self, provider_id: &str) -> (r: Vec<DiscoveredService>)
        ensures
            r@.map_values(|s: DiscoveredService| s@) == self@.filter(
                |s: DiscoveredServiceView| s.profile.provider.id_text() == provider_id@,
            ),
    {
        let target = String::from_str(provider_id);
        let mut out: Vec<DiscoveredService> = Vec::new();
        let mut i: usize = 0;
        while i < self.services.len()
            invariant
                i <= self.services.len(),
                target@ == provider_id@,
                out@.map_values(|s: DiscoveredService| s@) == self@.take(i as int).filter(
                    |s: DiscoveredServiceView| s.profile.provider.id_text() == provider_id@,
                ),
            decreases self.services.len() - i,
        {
            proof {
                reveal_with_fuel(Seq::filter, 1);
                assert(self@.take((i + 1) as int).drop_last() =~= self@.take(i as int));
            }
            let pid = self.services[i].profile.provider_id();
            if pid == target {
                out.push(self.services[i].clone());
            }
            i = i + 1;
            assert(out@.map_values(|s: DiscoveredService| s@) =~= self@.take(i as int).filter(
                |s: DiscoveredServiceView| s.profile.provider.id_text() == provider_id@,
            ));
        }
        assert(self@.take(i as int) =~= self@);
        out
    }

    /// Healthy (`service registered`) when a service has id `id`, degraded
    /// (`service not found`) otherwise.
    pub fn health_check(&self, id: u128) -> (r: AnonymityHealth)
        ensures
            r@.healthy == has_service(self@, id),
            r@.latency_ms is None,
            r@.message == Some(
                if has_service(self@, id) {
                    "service registered"@
                } else {
                    "service not found"@
                },
            ),
    {
        let mut i: usize = 0;
        while i < self.services.len()
            invariant
                i <= self.services.len(),
                forall|j: int| 0 <= j < i ==> (#[trigger] self@[j]).id != id,
            decreases self.services.len() - i,
        {
            if self.services[i].id == id {
                assert(self@[i as int].id == id);
                return AnonymityHealth::ok("service registered");
            }
            i = i + 1;
        }
        AnonymityHealth::degraded("service not found")
    }
}

impl Default for AnonymousDiscoveryEngine {
    fn default() -> (r: Self)
        ensures
            r@ == Seq::<DiscoveredServiceView>::empty(),
    {
        AnonymousDiscoveryEngine::new()
    }
}

} // verus!
