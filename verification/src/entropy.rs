use vstd::prelude::*;
use crate::distinct::{distinct_count, lemma_distinct_count, note_text};
use crate::ratio::Ratio;
use crate::types::{AnonymityRoute, AnonymityRouteView};

verus! {

broadcast use vstd::seq_lib::group_seq_properties;

/// The hop diversity of a route: distinct hops over hops, zero for a route
/// without hops.
pub open spec fn hop_factor_of(route: AnonymityRouteView) -> Ratio {
    if route.hops.len() == 0 {
        Ratio { num: 0, den: 1 }
    } else {
        Ratio { num: distinct_count(route.hops) as u64, den: route.hops.len() as u64 }
    }
}

/// Hop diversity is a share between 0 and 1, and it is 1 exactly for a
/// non-empty route that repeats no hop.
pub proof fn lemma_hop_factor_bounds(route: AnonymityRouteView)
    requires
        route.hops.len() <= u64::MAX,
    ensures
        hop_factor_of(route).wf(),
        hop_factor_of(route).le_spec(Ratio { num: 1, den: 1 }),
        route.hops.len() > 0 ==> (hop_factor_of(route).same_value(Ratio { num: 1, den: 1 })
            <==> route.hops.no_duplicates()),
{
    lemma_distinct_count(route.hops);
}

/// Scores and optimizes anonymity path entropy.
#[derive(Debug, Clone, Copy)]
pub struct RouteEntropyEngine;

impl Default for RouteEntropyEngine {
    fn default() -> (r: Self) {
        RouteEntropyEngine
    }
}

impl RouteEntropyEngine {
    pub fn new() -> (r: Self) {
        RouteEntropyEngine
    }

    /// The hop diversity of `route`, the part of a path's entropy score that
    /// rewards distinct hops.
    pub fn hop_factor(&self, route: &AnonymityRoute) -> (r: Ratio)
        ensures
            r == hop_factor_of(route@),
    {
        let hops = &route.hops;
        if hops.len() == 0 {
            return Ratio::zero();
        }
        let mut seen: Vec<String> = Vec::new();
        let mut j: usize = 0;
        while j < hops.len()
            invariant
                hops.deep_view() == route@.hops,
                j <= hops.len(),
                seen.deep_view().no_duplicates(),
                seen.deep_view().to_set() == hops.deep_view().take(j as int).to_set(),
            decreases hops.len() - j,
        {
            note_text(&mut seen, &hops[j]);
            proof {
                assert(hops.deep_view().take((j + 1) as int) =~= hops.deep_view().take(j as int).push(
                    hops.deep_view()[j as int],
                ));
            }
            j = j + 1;
        }
        proof {
            assert(hops.deep_view().take(j as int) =~= hops.deep_view());
            seen.deep_view().unique_seq_to_set();
        }
        Ratio::new(seen.len() as u64, hops.len() as u64)
    }
}

} // verus!
