use vstd::prelude::*;

verus! {

/// Adaptive cover traffic intensity preset.
#[derive(Debug, Clone, Copy, PartialEq, Eq, Structural)]
pub enum AdaptiveCoverProfile {
    Conservative,
    Balanced,
    Aggressive,
    Maximum,
}

impl AdaptiveCoverProfile {
    /// Rank of the preset on the intensity scale, from 0 (least) to 3 (most).
    pub open spec fn rank(self) -> int {
        match self {
            AdaptiveCoverProfile::Conservative => 0,
            AdaptiveCoverProfile::Balanced => 1,
            AdaptiveCoverProfile::Aggressive => 2,
            AdaptiveCoverProfile::Maximum => 3,
        }
    }

    pub open spec fn packets_per_second_spec(self) -> u32 {
        match self {
            AdaptiveCoverProfile::Conservative => 2,
            AdaptiveCoverProfile::Balanced => 8,
            AdaptiveCoverProfile::Aggressive => 20,
            AdaptiveCoverProfile::Maximum => 50,
        }
    }

    pub open spec fn bandwidth_bps_spec(self) -> u64 {
        match self {
            AdaptiveCoverProfile::Conservative => 4_096,
            AdaptiveCoverProfile::Balanced => 16_384,
            AdaptiveCoverProfile::Aggressive => 65_536,
            AdaptiveCoverProfile::Maximum => 262_144,
        }
    }

    /// Cover packets emitted per second at this intensity.
    #[verifier::when_used_as_spec(packets_per_second_spec)]
    pub fn packets_per_second(self) -> (r: u32)
        ensures
            r == self.packets_per_second_spec(),
    {
        match self {
            AdaptiveCoverProfile::Conservative => 2,
            AdaptiveCoverProfile::Balanced => 8,
            AdaptiveCoverProfile::Aggressive => 20,
            AdaptiveCoverProfile::Maximum => 50,
        }
    }

    /// Cover bandwidth in bytes per second at this intensity.
    #[verifier::when_used_as_spec(bandwidth_bps_spec)]
    pub fn bandwidth_bps(self) -> (r: u64)
        ensures
            r == self.bandwidth_bps_spec(),
    {
        match self {
            AdaptiveCoverProfile::Conservative => 4_096,
            AdaptiveCoverProfile::Balanced => 16_384,
            AdaptiveCoverProfile::Aggressive => 65_536,
            AdaptiveCoverProfile::Maximum => 262_144,
        }
    }
}

impl Default for AdaptiveCoverProfile {
    fn default() -> (r: Self)
        ensures
            r == AdaptiveCoverProfile::Balanced,
    {
        AdaptiveCoverProfile::Balanced
    }
}

/// A more intense preset sends strictly more packets and strictly more bytes
/// per second than a less intense one.
pub proof fn lemma_intensity_is_monotone(a: AdaptiveCoverProfile, b: AdaptiveCoverProfile)
    requires
        a.rank() < b.rank(),
    ensures
        a.packets_per_second() < b.packets_per_second(),
        a.bandwidth_bps() < b.bandwidth_bps(),
{
}

/// Milliseconds between two cover ticks: one second divided by the packet
/// rate, which is taken to be at least one.
pub open spec fn cover_interval_spec(profile: AdaptiveCoverProfile) -> u64 {
    let pps = profile.packets_per_second();
    (1000int / (if pps < 1 { 1int } else { pps as int })) as u64
}

/// Milliseconds between two cover ticks for `profile`.
pub fn cover_interval(profile: AdaptiveCoverProfile) -> (r: u64)
    ensures
        r == cover_interval_spec(profile),
{
    let pps = profile.packets_per_second();
    let pps = if pps < 1 { 1 } else { pps };
    1000 / (pps as u64)
}

/// One call on a cover traffic generator.
pub enum CoverCall {
    Start,
    Stop,
    SetProfile(AdaptiveCoverProfile),
}

/// What a generator's callers observe: its intensity and whether it runs.
pub struct CoverState {
    pub profile: AdaptiveCoverProfile,
    pub running: bool,
}

/// The observed state after one call: starting and stopping set the run
/// state and keep the intensity, setting the intensity keeps the run state.
pub open spec fn cover_step(s: CoverState, call: CoverCall) -> CoverState {
    match call {
        CoverCall::Start => CoverState { profile: s.profile, running: true },
        CoverCall::Stop => CoverState { profile: s.profile, running: false },
        CoverCall::SetProfile(p) => CoverState { profile: p, running: s.running },
    }
}

/// The observed state after `calls`, in order, from `s`.
pub open spec fn cover_run(s: CoverState, calls: Seq<CoverCall>) -> CoverState
    decreases calls.len(),
{
    if calls.len() == 0 {
        s
    } else {
        cover_step(cover_run(s, calls.drop_last()), calls.last())
    }
}

/// `calls[i]` is a start.
pub open spec fn start_at(calls: Seq<CoverCall>, i: int) -> bool {
    0 <= i < calls.len() && calls[i] is Start
}

/// No call after position `i` of `calls` is a stop.
pub open spec fn no_stop_after(calls: Seq<CoverCall>, i: int) -> bool {
    forall|j: int| i < j < calls.len() ==> !((#[trigger] calls[j]) is Stop)
}

/// Some start in `calls` is followed by no stop.
pub open spec fn last_switch_is_start(calls: Seq<CoverCall>) -> bool {
    exists|i: int| #[trigger] start_at(calls, i) && no_stop_after(calls, i)
}

/// A generator made at intensity `p` and then driven by any sequence of
/// starts, stops and intensity changes runs exactly when some start was
/// called and the latest start or stop was a start.
pub proof fn lemma_cover_running(p: AdaptiveCoverProfile, calls: Seq<CoverCall>)
    ensures
        cover_run(CoverState { profile: p, running: false }, calls).running <==> last_switch_is_start(calls),
    decreases calls.len(),
{
    if calls.len() > 0 {
        let n = calls.len() - 1;
        let prev = calls.drop_last();
        lemma_cover_running(p, prev);
        if calls[n] is Start {
            assert(start_at(calls, n));
            assert(no_stop_after(calls, n));
        } else if calls[n] is Stop {
            if last_switch_is_start(calls) {
                let i = choose|i: int| #[trigger] start_at(calls, i) && no_stop_after(calls, i);
                if i < n {
                    assert(calls[n] is Stop);
                }
            }
        } else {
            if last_switch_is_start(calls) {
                let i = choose|i: int| #[trigger] start_at(calls, i) && no_stop_after(calls, i);
                assert(i < n);
                assert(prev[i] == calls[i]);
                assert(start_at(prev, i));
                assert forall|j: int| i < j < prev.len() implies !((#[trigger] prev[j]) is Stop) by {
                    assert(prev[j] == calls[j]);
                }
                assert(no_stop_after(prev, i));
            }
            if last_switch_is_start(prev) {
                let i = choose|i: int| #[trigger] start_at(prev, i) && no_stop_after(prev, i);
                assert(prev[i] == calls[i]);
                assert(start_at(calls, i));
                assert forall|j: int| i < j < calls.len() implies !((#[trigger] calls[j]) is Stop) by {
                    if j < n {
                        assert(prev[j] == calls[j]);
                    }
                }
                assert(no_stop_after(calls, i));
            }
        }
    }
}

/// The intensity of a generator made at intensity `p` and then driven by
/// any sequence of calls is the one last set, or `p` when none was set;
/// starting and stopping never change it.
pub proof fn lemma_cover_profile(p: AdaptiveCoverProfile, calls: Seq<CoverCall>)
    ensures
        (forall|k: int| 0 <= k < calls.len() ==> !((#[trigger] calls[k]) is SetProfile)) ==> cover_run(
            CoverState { profile: p, running: false },
            calls,
        ).profile == p,
        forall|k: int|
            0 <= k < calls.len() && (#[trigger] calls[k]) is SetProfile && (forall|j: int|
                k < j < calls.len() ==> !((#[trigger] calls[j]) is SetProfile)) ==> cover_run(
                CoverState { profile: p, running: false },
                calls,
            ).profile == calls[k]->SetProfile_0,
    decreases calls.len(),
{
    let s0 = CoverState { profile: p, running: false };
    if calls.len() > 0 {
        let prev = calls.drop_last();
        let n = calls.len() - 1;
        lemma_cover_profile(p, prev);
        assert forall|k: int|
            0 <= k < calls.len() && (#[trigger] calls[k]) is SetProfile && (forall|j: int|
                k < j < calls.len() ==> !((#[trigger] calls[j]) is SetProfile)) implies cover_run(
            s0,
            calls,
        ).profile == calls[k]->SetProfile_0 by {
            if k < n {
                assert(!(calls[n] is SetProfile));
                assert(prev[k] == calls[k]);
                assert forall|j: int| k < j < prev.len() implies !((#[trigger] prev[j]) is SetProfile) by {
                    assert(prev[j] == calls[j]);
                }
            }
        }
        if forall|k: int| 0 <= k < calls.len() ==> !((#[trigger] calls[k]) is SetProfile) {
            assert(!(calls[n] is SetProfile));
            assert forall|k: int| 0 <= k < prev.len() implies !((#[trigger] prev[k]) is SetProfile) by {
                assert(prev[k] == calls[k]);
            }
        }
    }
}

/// State of the adaptive cover traffic generator: the intensity in force,
/// whether generation runs, and whether a tick has happened yet.
#[derive(Debug)]
pub struct AdaptiveCoverTrafficEngine {
    profile: AdaptiveCoverProfile,
    running: bool,
    ticked: bool,
}

impl AdaptiveCoverTrafficEngine {
    /// What callers observe of the generator.
    pub open spec fn cover_state(&self) -> CoverState {
        CoverState { profile: self.profile_spec(), running: self.running_spec() }
    }

    pub closed spec fn profile_spec(&self) -> AdaptiveCoverProfile {
        self.profile
    }

    pub closed spec fn running_spec(&self) -> bool {
        self.running
    }

    pub closed spec fn ticked_spec(&self) -> bool {
        self.ticked
    }

    /// A stopped generator at intensity `profile`.
    pub fn new(profile: AdaptiveCoverProfile) -> (r: Self)
        ensures
            r.profile_spec() == profile,
            !r.running_spec(),
            !r.ticked_spec(),
            r.cover_state() == (CoverState { profile, running: false }),
    {
        AdaptiveCoverTrafficEngine { profile, running: false, ticked: false }
    }

    /// The intensity in force.
    pub fn profile(&self) -> (r: AdaptiveCoverProfile)
        ensures
            r == self.profile_spec(),
    {
        self.profile
    }

    /// Changes the intensity; a running generator uses it from its next tick on.
    pub fn set_profile(&mut self, profile: AdaptiveCoverProfile)
        ensures
            final(self).profile_spec() == profile,
            final(self).running_spec() == old(self).running_spec(),
            final(self).cover_state() == cover_step(old(self).cover_state(), CoverCall::SetProfile(profile)),
            final(self).ticked_spec() == old(self).ticked_spec(),
    {
        self.profile = profile;
    }

    /// Whether the generator runs.
    pub fn is_running(&self) -> (r: bool)
        ensures
            r == self.running_spec(),
    {
        self.running
    }

    /// Starts the generator. A running generator is left as it is and `None`
    /// comes back; otherwise it is marked running and the intensity that the
    /// new generation task starts with comes back.
    pub fn start(&mut self) -> (r: Option<AdaptiveCoverProfile>)
        ensures
            final(self).cover_state() == cover_step(old(self).cover_state(), CoverCall::Start),
            old(self).running_spec() ==> r is None && *final(self) == *old(self),
            !old(self).running_spec() ==> r == Some(old(self).profile_spec())
                && final(self).running_spec()
                && final(self).profile_spec() == old(self).profile_spec()
                && final(self).ticked_spec() == old(self).ticked_spec(),
    {
        if self.running {
            return None;
        }
        self.running = true;
        Some(self.profile)
    }

    /// Stops the generator.
    pub fn stop(&mut self)
        ensures
            final(self).cover_state() == cover_step(old(self).cover_state(), CoverCall::Stop),
            !final(self).running_spec(),
            final(self).profile_spec() == old(self).profile_spec(),
            final(self).ticked_spec() == old(self).ticked_spec(),
    {
        self.running = false;
    }

    /// Records one cover tick and returns the packet rate and bandwidth of the
    /// intensity in force at that tick.
    pub fn tick(&mut self) -> (r: (u32, u64))
        ensures
            r.0 == old(self).profile_spec().packets_per_second(),
            r.1 == old(self).profile_spec().bandwidth_bps(),
            final(self).ticked_spec(),
            final(self).profile_spec() == old(self).profile_spec(),
            final(self).running_spec() == old(self).running_spec(),
    {
        self.ticked = true;
        (self.profile.packets_per_second(), self.profile.bandwidth_bps())
    }
}

} // verus!
