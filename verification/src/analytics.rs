use vstd::prelude::*;
use crate::distinct::{distinct_count, lemma_distinct_count, note_text};
use crate::ratio::Ratio;
use crate::types::{AnonymityProfile, AnonymityProfileView, AnonymityProvider, AnonymityRoute, AnonymityRouteView};

verus! {

broadcast use vstd::seq_lib::group_seq_properties;

/// Aggregated anonymity analytics metrics, each a share between 0 and 1.
#[derive(Debug, Clone, Copy)]
pub struct AnonymityAnalyticsSnapshot {
    pub cover_traffic_efficiency: Ratio,
    pub mixnet_diversity: Ratio,
    pub federation_diversity: Ratio,
}

/// `n` capped at `cap`.
pub open spec fn capped(n: nat, cap: nat) -> nat {
    if n < cap {
        n
    } else {
        cap
    }
}

/// Cover traffic efficiency: half the provider factor `min(active/4, 1)`,
/// plus 0.15 with adaptive cover, capped at 1; over the denominator 40 this
/// is `5 min(active, 4) + 6` (or without the 6), which never exceeds 1.
pub open spec fn cover_efficiency_of(active_providers: nat, adaptive_cover: bool) -> Ratio {
    Ratio { num: (5 * capped(active_providers, 4) + if adaptive_cover { 6nat } else { 0nat }) as u64, den: 40 }
}

/// Mixnet diversity: `min(distinct_route_types / 8, 1)`.
pub open spec fn mixnet_diversity_of(distinct_route_types: nat) -> Ratio {
    Ratio { num: capped(distinct_route_types, 8) as u64, den: 8 }
}

/// Federation diversity: `min(federated_providers / 3, 1)`.
pub open spec fn federation_factor_of(federated_providers: nat) -> Ratio {
    Ratio { num: capped(federated_providers, 3) as u64, den: 3 }
}

/// Every metric of the snapshot grows (weakly) with each of its inputs.
pub proof fn lemma_snapshot_is_monotone(
    active1: nat,
    active2: nat,
    federated1: nat,
    federated2: nat,
    adaptive1: bool,
    adaptive2: bool,
    routes1: nat,
    routes2: nat,
)
    requires
        active1 <= active2,
        federated1 <= federated2,
        adaptive1 ==> adaptive2,
        routes1 <= routes2,
    ensures
        cover_efficiency_of(active1, adaptive1).le_spec(cover_efficiency_of(active2, adaptive2)),
        federation_factor_of(federated1).le_spec(federation_factor_of(federated2)),
        mixnet_diversity_of(routes1).le_spec(mixnet_diversity_of(routes2)),
{
    assert(capped(routes1, 8) as u64 == capped(routes1, 8));
    assert(capped(routes2, 8) as u64 == capped(routes2, 8));
    assert(capped(federated1, 3) as u64 == capped(federated1, 3));
    assert(capped(federated2, 3) as u64 == capped(federated2, 3));
    let m1 = mixnet_diversity_of(routes1);
    let m2 = mixnet_diversity_of(routes2);
    assert(m1.num * m2.den <= m2.num * m1.den) by (nonlinear_arith)
        requires
            m1.num <= m2.num,
            m1.den == 8,
            m2.den == 8,
    ;
    let f1 = federation_factor_of(federated1);
    let f2 = federation_factor_of(federated2);
    assert(f1.num * f2.den <= f2.num * f1.den) by (nonlinear_arith)
        requires
            f1.num <= f2.num,
            f1.den == 3,
            f2.den == 3,
    ;
}

/// The value of each metric in terms of the counters: federation diversity
/// is `k/3` for `k < 3` federated providers and 1 from three on; mixnet
/// diversity is `k/8` for `k < 8` route types and 1 from eight on; cover
/// efficiency is `k/8` for `k < 4` active providers and `1/2` from four on,
/// plus `3/20` with adaptive cover.
pub proof fn lemma_snapshot_values(active: nat, federated: nat, adaptive: bool, routes: nat)
    ensures
        federated < 3 ==> federation_factor_of(federated).same_value(Ratio { num: federated as u64, den: 3 }),
        federated >= 3 ==> federation_factor_of(federated).same_value(Ratio { num: 1, den: 1 }),
        routes < 8 ==> mixnet_diversity_of(routes).same_value(Ratio { num: routes as u64, den: 8 }),
        routes >= 8 ==> mixnet_diversity_of(routes).same_value(Ratio { num: 1, den: 1 }),
        active < 4 && !adaptive ==> cover_efficiency_of(active, adaptive).same_value(Ratio { num: active as u64, den: 8 }),
        active < 4 && adaptive ==> cover_efficiency_of(active, adaptive).same_value(
            Ratio { num: (5 * active + 6) as u64, den: 40 },
        ),
        active >= 4 && !adaptive ==> cover_efficiency_of(active, adaptive).same_value(Ratio { num: 1, den: 2 }),
        active >= 4 && adaptive ==> cover_efficiency_of(active, adaptive).same_value(Ratio { num: 13, den: 20 }),
{
    let f = federation_factor_of(federated);
    let m = mixnet_diversity_of(routes);
    let c = cover_efficiency_of(active, adaptive);
    if federated < 3 {
        assert(f.num == federated);
    } else {
        assert(f.num == 3);
    }
    if routes < 8 {
        assert(m.num == routes);
    } else {
        assert(m.num == 8);
    }
    if active < 4 {
        assert(c.num == 5 * active + if adaptive { 6nat } else { 0nat });
        if !adaptive {
            assert((5 * active) * 8 == active * 40) by (nonlinear_arith);
        }
    } else {
        assert(c.num == 20 + if adaptive { 6nat } else { 0nat });
    }
}

/// Each metric of the snapshot is a share between 0 and 1.
pub proof fn lemma_snapshot_is_bounded(active: nat, federated: nat, adaptive: bool, routes: nat)
    ensures
        cover_efficiency_of(active, adaptive).wf(),
        cover_efficiency_of(active, adaptive).le_spec(Ratio { num: 1, den: 1 }),
        federation_factor_of(federated).wf(),
        federation_factor_of(federated).le_spec(Ratio { num: 1, den: 1 }),
        mixnet_diversity_of(routes).wf(),
        mixnet_diversity_of(routes).le_spec(Ratio { num: 1, den: 1 }),
{
}

/// Computes anonymity metrics from runtime counters.
#[derive(Debug, Clone, Copy)]
pub struct AnonymityAnalytics;

impl Default for AnonymityAnalytics {
    fn default() -> (r: Self) {
        AnonymityAnalytics
    }
}

impl AnonymityAnalytics {
    pub fn new() -> (r: Self) {
        AnonymityAnalytics
    }

    /// The analytics snapshot for the given counters.
    pub fn compute(
        &self,
        active_providers: u32,
        federated_providers: u32,
        adaptive_cover: bool,
        distinct_route_types: u32,
    ) -> (r: AnonymityAnalyticsSnapshot)
        ensures
            r.cover_traffic_efficiency == cover_efficiency_of(active_providers as nat, adaptive_cover),
            r.mixnet_diversity == mixnet_diversity_of(distinct_route_types as nat),
            r.federation_diversity == federation_factor_of(federated_providers as nat),
    {
        let provider_units: u64 = if active_providers < 4 { active_providers as u64 } else { 4 };
        let federated_units: u64 = if federated_providers < 3 { federated_providers as u64 } else { 3 };
        let route_units: u64 = if distinct_route_types < 8 { distinct_route_types as u64 } else { 8 };
        let bonus: u64 = if adaptive_cover { 6 } else { 0 };
        let raised = Ratio::new(5 * provider_units + bonus, 40);
        let one = Ratio::new(1, 1);
        let efficiency = if one.lt(&raised) { one } else { raised };
        AnonymityAnalyticsSnapshot {
            cover_traffic_efficiency: efficiency,
            mixnet_diversity: Ratio::new(route_units, 8),
            federation_diversity: Ratio::new(federated_units, 3),
        }
    }
}

/// The hops of all `paths`, path after path.
pub open spec fn all_hops(paths: Seq<AnonymityRouteView>) -> Seq<Seq<char>>
    decreases paths.len(),
{
    if paths.len() == 0 {
        Seq::empty()
    } else {
        all_hops(paths.drop_last()) + paths.last().hops
    }
}

/// Path diversity: distinct hops over all hops of `paths`; zero when there
/// are no paths or no hops.
pub open spec fn path_diversity_of(paths: Seq<AnonymityRouteView>) -> Ratio {
    let hops = all_hops(paths);
    if paths.len() == 0 || hops.len() == 0 {
        Ratio { num: 0, den: 1 }
    } else {
        Ratio { num: distinct_count(hops) as u64, den: hops.len() as u64 }
    }
}

/// Path diversity is a share between 0 and 1, and it is 1 exactly when
/// there are hops and no hop occurs twice across all paths.
pub proof fn lemma_path_diversity_is_bounded(paths: Seq<AnonymityRouteView>)
    requires
        all_hops(paths).len() <= u64::MAX,
    ensures
        path_diversity_of(paths).wf(),
        path_diversity_of(paths).le_spec(Ratio { num: 1, den: 1 }),
        all_hops(paths).len() > 0 ==> (path_diversity_of(paths).same_value(Ratio { num: 1, den: 1 })
            <==> all_hops(paths).no_duplicates()),
{
    lemma_distinct_count(all_hops(paths));
    if all_hops(paths).len() > 0 {
        assert(paths.len() > 0);
    }
}

/// Measures unique-hop diversity across `paths`.
pub fn path_diversity(paths: &[AnonymityRoute]) -> (r: Ratio)
    requires
        all_hops(paths@.map_values(|p: AnonymityRoute| p@)).len() <= u64::MAX,
    ensures
        r == path_diversity_of(paths@.map_values(|p: AnonymityRoute| p@)),
{
    let ghost views = paths@.map_values(|p: AnonymityRoute| p@);
    if paths.len() == 0 {
        return Ratio::zero();
    }
    let mut seen: Vec<String> = Vec::new();
    let mut total: u64 = 0;
    let mut i: usize = 0;
    while i < paths.len()
        invariant
            views == paths@.map_values(|p: AnonymityRoute| p@),
            all_hops(views).len() <= u64::MAX,
            i <= paths.len(),
            total == all_hops(views.take(i as int)).len(),
            seen.deep_view().no_duplicates(),
            seen.deep_view().to_set() == all_hops(views.take(i as int)).to_set(),
        decreases paths.len() - i,
    {
        let hops = &paths[i].hops;
        let ghost prefix = all_hops(views.take(i as int));
        proof {
            assert(views.take((i + 1) as int).drop_last() =~= views.take(i as int));
            assert(views[i as int] == paths@[i as int]@);
            assert(all_hops(views.take((i + 1) as int)) == prefix + hops.deep_view());
            lemma_all_hops_prefix_len(views, i as int);
        }
        let mut j: usize = 0;
        while j < hops.len()
            invariant
                hops.deep_view() == views[i as int].hops,
                j <= hops.len(),
                prefix.len() + hops.len() <= u64::MAX,
                total == prefix.len() + j,
                seen.deep_view().no_duplicates(),
                seen.deep_view().to_set() == (prefix + hops.deep_view().take(j as int)).to_set(),
            decreases hops.len() - j,
        {
            note_text(&mut seen, &hops[j]);
            proof {
                assert(prefix + hops.deep_view().take((j + 1) as int) =~= (prefix + hops.deep_view().take(j as int)).push(hops.deep_view()[j as int]));
            }
            total = total + 1;
            j = j + 1;
        }
        proof {
            assert(hops.deep_view().take(j as int) =~= hops.deep_view());
        }
        i = i + 1;
    }
    proof {
        assert(views.take(i as int) =~= views);
        seen.deep_view().unique_seq_to_set();
    }
    if total == 0 {
        return Ratio::zero();
    }
    Ratio::new(seen.len() as u64, total)
}

proof fn lemma_all_hops_prefix_len(paths: Seq<AnonymityRouteView>, i: int)
    requires
        0 <= i < paths.len(),
    ensures
        all_hops(paths.take(i)).len() + paths[i].hops.len() <= all_hops(paths).len(),
    decreases paths.len(),
{
    if i + 1 == paths.len() {
        assert(paths.take(i) =~= paths.drop_last());
    } else {
        lemma_all_hops_prefix_len(paths.drop_last(), i);
        assert(paths.drop_last().take(i) =~= paths.take(i));
    }
}

/// The providers of `profiles`, in order.
pub open spec fn profile_providers(profiles: Seq<AnonymityProfileView>) -> Seq<AnonymityProvider> {
    profiles.map_values(|p: AnonymityProfileView| p.provider)
}

/// Federation diversity of a deployment: distinct providers over profiles;
/// zero when there are no profiles.
pub open spec fn provider_spread_of(profiles: Seq<AnonymityProfileView>) -> Ratio {
    if profiles.len() == 0 {
        Ratio { num: 0, den: 1 }
    } else {
        Ratio { num: distinct_count(profile_providers(profiles)) as u64, den: profiles.len() as u64 }
    }
}

/// Federation diversity is a share between 0 and 1, and it is 1 exactly for
/// a non-empty deployment whose profiles all name different providers.
pub proof fn lemma_provider_spread_is_bounded(profiles: Seq<AnonymityProfileView>)
    requires
        profiles.len() <= u64::MAX,
    ensures
        provider_spread_of(profiles).wf(),
        provider_spread_of(profiles).le_spec(Ratio { num: 1, den: 1 }),
        profiles.len() > 0 ==> (provider_spread_of(profiles).same_value(Ratio { num: 1, den: 1 })
            <==> profile_providers(profiles).no_duplicates()),
{
    lemma_distinct_count(profile_providers(profiles));
}

fn contains_provider(seen: &Vec<AnonymityProvider>, provider: AnonymityProvider) -> (r: bool)
    ensures
        r == seen@.contains(provider),
{
    let mut j: usize = 0;
    while j < seen.len()
        invariant
            j <= seen.len(),
            forall|k: int| 0 <= k < j ==> seen@[k] != provider,
        decreases seen.len() - j,
    {
        if seen[j] == provider {
            return true;
        }
        j = j + 1;
    }
    false
}

/// Measures provider spread in a federated deployment.
pub fn federation_diversity(profiles: &[AnonymityProfile]) -> (r: Ratio)
    ensures
        r == provider_spread_of(profiles@.map_values(|p: AnonymityProfile| p@)),
{
    let ghost views = profiles@.map_values(|p: AnonymityProfile| p@);
    if profiles.len() == 0 {
        return Ratio::zero();
    }
    let mut seen: Vec<AnonymityProvider> = Vec::new();
    let mut i: usize = 0;
    while i < profiles.len()
        invariant
            views == profiles@.map_values(|p: AnonymityProfile| p@),
            i <= profiles.len(),
            seen@.no_duplicates(),
            seen@.to_set() == profile_providers(views.take(i as int)).to_set(),
        decreases profiles.len() - i,
    {
        let provider = profiles[i].provider;
        let ghost prefix = profile_providers(views.take(i as int));
        let ghost before = seen@;
        proof {
            assert(profile_providers(views.take((i + 1) as int)) =~= prefix.push(provider));
            prefix.lemma_push_to_set_commute(provider);
            before.lemma_push_to_set_commute(provider);
        }
        let found = contains_provider(&seen, provider);
        if !found {
            proof {
                assert(!seen@.contains(provider));
            }
            seen.push(provider);
        } else {
            assert(seen@.to_set() =~= seen@.to_set().insert(provider));
        }
        i = i + 1;
    }
    proof {
        assert(views.take(i as int) =~= views);
        seen@.unique_seq_to_set();
        lemma_distinct_count(profile_providers(views));
    }
    Ratio::new(seen.len() as u64, profiles.len() as u64)
}

} // verus!
