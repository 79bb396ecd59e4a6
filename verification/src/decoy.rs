use std::collections::HashMap;
use vstd::prelude::*;
use vstd::string::*;
use crate::ids::{decimal_string, decimal_text, is_random_uuid, new_uuid};
use crate::ratio::Ratio;

verus! {

broadcast use vstd::std_specs::hash::group_hash_axioms;

/// Operating mode for decoy routing experiments.
#[derive(Debug, Clone, Copy, PartialEq, Eq, Structural)]
pub enum DecoyMode {
    /// Research-only analysis, no network I/O.
    Research,
    /// In-memory simulation of decoy paths.
    Simulation,
    /// Lab harness for controlled experiments.
    Lab,
}

/// Simulated decoy hop (never touches a real network).
#[derive(Debug)]
pub struct DecoyHop {
    pub id: u128,
    pub label: String,
    pub is_decoy: bool,
}

/// The value of a [`DecoyHop`].
pub struct DecoyHopView {
    pub id: u128,
    pub label: Seq<char>,
    pub is_decoy: bool,
}

impl View for DecoyHop {
    type V = DecoyHopView;

    open spec fn view(&self) -> DecoyHopView {
        DecoyHopView { id: self.id, label: self.label@, is_decoy: self.is_decoy }
    }
}

impl Clone for DecoyHop {
    fn clone(&self) -> (r: Self)
        ensures
            r@ == self@,
    {
        DecoyHop { id: self.id, label: self.label.clone(), is_decoy: self.is_decoy }
    }
}

/// Simulated decoy route; `decoy_ratio` is the share of decoy hops.
#[derive(Debug)]
pub struct DecoyRoute {
    pub id: u128,
    pub hops: Vec<DecoyHop>,
    pub decoy_ratio: Ratio,
}

/// The value of a [`DecoyRoute`].
pub struct DecoyRouteView {
    pub id: u128,
    pub hops: Seq<DecoyHopView>,
    pub decoy_ratio: Ratio,
}

impl View for DecoyRoute {
    type V = DecoyRouteView;

    open spec fn view(&self) -> DecoyRouteView {
        DecoyRouteView {
            id: self.id,
            hops: self.hops@.map_values(|h: DecoyHop| h@),
            decoy_ratio: self.decoy_ratio,
        }
    }
}

impl Clone for DecoyRoute {
    fn clone(&self) -> (r: Self)
        ensures
            r@ == self@,
    {
        let hops = self.hops.clone();
        assert(hops@.map_values(|h: DecoyHop| h@) =~= self.hops@.map_values(|h: DecoyHop| h@));
        DecoyRoute { id: self.id, hops, decoy_ratio: self.decoy_ratio }
    }
}

/// Result of an in-memory decoy routing simulation.
#[derive(Debug, Clone)]
pub struct DecoySimulationResult {
    pub route: DecoyRoute,
    pub effective_anonymity: Ratio,
    pub decoys_injected: u32,
    pub mode: DecoyMode,
}

/// The value of a [`DecoySimulationResult`].
pub struct DecoySimulationResultView {
    pub route: DecoyRouteView,
    pub effective_anonymity: Ratio,
    pub decoys_injected: u32,
    pub mode: DecoyMode,
}

impl View for DecoySimulationResult {
    type V = DecoySimulationResultView;

    open spec fn view(&self) -> DecoySimulationResultView {
        DecoySimulationResultView {
            route: self.route@,
            effective_anonymity: self.effective_anonymity,
            decoys_injected: self.decoys_injected,
            mode: self.mode,
        }
    }
}

/// The label of the `j`-th decoy hop: `decoy-` followed by `j` in decimal.
pub open spec fn decoy_label(j: nat) -> Seq<char> {
    "decoy-"@ + decimal_text(j)
}

/// The hop total that ratios are taken over: the number of hops, at least one.
pub open spec fn ratio_base(hop_total: nat) -> nat {
    if hop_total < 1 {
        1
    } else {
        hop_total
    }
}

/// The share of `decoys` decoy hops among `hop_total` hops.
pub open spec fn decoy_ratio_of(decoys: nat, hop_total: nat) -> Ratio {
    Ratio { num: decoys as u64, den: ratio_base(hop_total) as u64 }
}

/// The effective anonymity of a route whose decoy share is `d / t`:
/// `1/2 + 2/5 * d/t`, written over the denominator `10 t`. The computation
/// caps it at `19/20`, but since decoys never outnumber hops (`d <= t`) the
/// value never exceeds `9/10` and the cap never applies
/// (`lemma_effective_anonymity_bounds`), so no cap appears here.
pub open spec fn effective_anonymity_of(decoys: nat, hop_total: nat) -> Ratio {
    let t = ratio_base(hop_total);
    Ratio { num: (5 * t + 4 * decoys) as u64, den: (10 * t) as u64 }
}

/// The largest hop count a simulation is run on. A route is held in memory
/// with one `DecoyHop` (more than 16 bytes) per hop, so no route of more
/// hops fits in a 64-bit address space.
pub open spec fn max_simulated_hops() -> nat {
    0x0fff_ffff_ffff_ffff
}

/// The effective anonymity of a simulated route is above one half exactly
/// when decoys were injected, is one half without decoys, and never exceeds
/// the cap of 19/20.
pub proof fn lemma_effective_anonymity_bounds(decoys: nat, real_hops: nat)
    requires
        decoys + real_hops <= max_simulated_hops(),
    ensures
        effective_anonymity_of(decoys, decoys + real_hops).wf(),
        decoys > 0 <==> (Ratio { num: 1, den: 2 }).lt_spec(
            effective_anonymity_of(decoys, decoys + real_hops),
        ),
        decoys == 0 ==> effective_anonymity_of(decoys, decoys + real_hops).same_value(
            Ratio { num: 1, den: 2 },
        ),
        effective_anonymity_of(decoys, decoys + real_hops).le_spec(Ratio { num: 19, den: 20 }),
{
}

/// In-memory decoy routing simulator. Never performs network operations.
#[derive(Debug)]
pub struct DecoyRoutingFramework {
    mode: DecoyMode,
    routes: HashMap<u128, DecoyRoute>,
}

/// The value of a [`DecoyRoutingFramework`]: its mode and the routes it
/// simulated, by id.
pub struct DecoyRoutingFrameworkView {
    pub mode: DecoyMode,
    pub routes: Map<u128, DecoyRouteView>,
}

impl View for DecoyRoutingFramework {
    type V = DecoyRoutingFrameworkView;

    closed spec fn view(&self) -> DecoyRoutingFrameworkView {
        DecoyRoutingFrameworkView {
            mode: self.mode,
            routes: self.routes@.map_values(|r: DecoyRoute| r@),
        }
    }
}

impl DecoyRoutingFramework {
    /// A framework in `mode` with no simulated routes.
    pub fn new(mode: DecoyMode) -> (r: Self)
        ensures
            r@.mode == mode,
            r@.routes == Map::<u128, DecoyRouteView>::empty(),
    {
        let r = DecoyRoutingFramework { mode, routes: HashMap::new() };
        assert(r@.routes =~= Map::<u128, DecoyRouteView>::empty());
        r
    }

    /// The framework's mode.
    pub fn mode(&self) -> (r: DecoyMode)
        ensures
            r == self@.mode,
    {
        self.mode
    }

    /// Builds a simulated route in memory: the real hops in order, then
    /// `decoy_count` decoy hops labelled `decoy-0`, `decoy-1`, ..., each hop
    /// with a fresh random id. The route (also with a fresh id) is recorded
    /// and returned with its decoy share and effective anonymity.
    pub fn simulate_route(&mut self, real_hops: &[&str], decoy_count: u32) -> (r: DecoySimulationResult)
        requires
            real_hops@.len() + decoy_count <= max_simulated_hops(),
        ensures
            ({
                let n = real_hops@.len();
                let hops = r@.route.hops;
                &&& hops.len() == n + decoy_count
                &&& forall|k: int| 0 <= k < n ==> (#[trigger] hops[k]).label == real_hops@[k]@ && !hops[k].is_decoy
                &&& forall|j: int| 0 <= j < decoy_count ==> (#[trigger] hops[n + j]).label == decoy_label(j as nat) && hops[n + j].is_decoy
                &&& r@.route.decoy_ratio == decoy_ratio_of(decoy_count as nat, n + decoy_count as nat)
                &&& r@.effective_anonymity == effective_anonymity_of(decoy_count as nat, n + decoy_count as nat)
            }),
            r@.decoys_injected == decoy_count,
            is_random_uuid(r@.route.id),
            forall|k: int| 0 <= k < r@.route.hops.len() ==> is_random_uuid(#[trigger] r@.route.hops[k].id),
            r@.mode == old(self)@.mode,
            final(self)@.mode == old(self)@.mode,
            final(self)@.routes == old(self)@.routes.insert(r@.route.id, r@.route),
    {
        let n = real_hops.len();
        let mut hops: Vec<DecoyHop> = Vec::new();
        let mut i: usize = 0;
        while i < n
            invariant
                n == real_hops@.len(),
                i <= n,
                hops@.len() == i,
                forall|k: int| 0 <= k < i ==> (#[trigger] hops@[k])@.label == real_hops@[k]@ && !hops@[k].is_decoy,
                forall|k: int| 0 <= k < i ==> is_random_uuid((#[trigger] hops@[k]).id),
            decreases n - i,
        {
            hops.push(DecoyHop { id: new_uuid(), label: String::from_str(real_hops[i]), is_decoy: false });
            i = i + 1;
        }
        let mut j: u32 = 0;
        while j < decoy_count
            invariant
                n == real_hops@.len(),
                j <= decoy_count,
                hops@.len() == n + j,
                forall|k: int| 0 <= k < n ==> (#[trigger] hops@[k])@.label == real_hops@[k]@ && !hops@[k].is_decoy,
                forall|k: int| 0 <= k < j ==> (#[trigger] hops@[n + k])@.label == decoy_label(k as nat) && hops@[n + k].is_decoy,
                forall|k: int| 0 <= k < n + j ==> is_random_uuid((#[trigger] hops@[k]).id),
            decreases decoy_count - j,
        {
            let mut label = String::from_str("decoy-");
            let digits = decimal_string(j);
            label.append(digits.as_str());
            hops.push(DecoyHop { id: new_uuid(), label, is_decoy: true });
            j = j + 1;
        }
        let total = hops.len();
        let base: usize = if total < 1 { 1 } else { total };
        let decoy_ratio = Ratio::new(decoy_count as u64, base as u64);
        let raised = Ratio::new(5 * (base as u64) + 4 * (decoy_count as u64), 10 * (base as u64));
        let cap = Ratio::new(19, 20);
        let effective_anonymity = if cap.lt(&raised) { cap } else { raised };
        let route = DecoyRoute { id: new_uuid(), hops, decoy_ratio };
        let recorded = route.clone();
        self.routes.insert(route.id, recorded);
        proof {
            assert(self@.routes =~= old(self)@.routes.insert(route@.id, route@));
        }
        DecoySimulationResult {
            effective_anonymity,
            decoys_injected: decoy_count,
            mode: self.mode,
            route,
        }
    }

    /// The simulated route with id `id`, if any.
    pub fn get_route(&self, id: u128) -> (r: Option<&DecoyRoute>)
        ensures
            match r {
                Some(route) => self@.routes.contains_key(id) && route@ == self@.routes[id],
                None => !self@.routes.contains_key(id),
            },
    {
        self.routes.get(&id)
    }
}

/// A simulation records its route and nothing else: afterwards the route
/// can be looked up by its id and is the same route, every other route is
/// still there unchanged, no other id appears, and the mode is kept.
pub proof fn lemma_simulated_route_is_recorded(
    before: DecoyRoutingFrameworkView,
    after: DecoyRoutingFrameworkView,
    route: DecoyRouteView,
)
    requires
        after.routes == before.routes.insert(route.id, route),
        after.mode == before.mode,
    ensures
        after.routes.contains_key(route.id),
        after.routes[route.id] == route,
        forall|id: u128| id != route.id ==> (#[trigger] after.routes.contains_key(id) <==> before.routes.contains_key(id)),
        forall|id: u128|
            id != route.id && before.routes.contains_key(id) ==> #[trigger] after.routes[id] == before.routes[id],
        after.routes.dom() == before.routes.dom().insert(route.id),
        after.mode == before.mode,
{
    assert(after.routes.dom() =~= before.routes.dom().insert(route.id));
}

} // verus!
