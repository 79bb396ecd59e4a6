use vstd::prelude::*;
use vstd::string::*;
use crate::ids::{is_random_uuid, new_uuid, now};
use crate::ratio::Ratio;
use crate::types::{
    AnonymityProfile, AnonymityProvider, AnonymityRoute, AnonymitySession, AnonymityStatus,
};

verus! {

/// What the Nym adapter reads from the status of the mixnet backend it
/// wraps: whether it runs, whether it is a stub, its SOCKS port and its
/// last error.
#[derive(Debug, Clone)]
pub struct MixnetStatusSnapshot {
    pub running: bool,
    pub stub_mode: bool,
    pub socks_port: Option<u16>,
    pub last_error: Option<String>,
}

/// The hops of every Nym route.
pub open spec fn nym_hops() -> Seq<Seq<char>> {
    seq!["nym-entry"@, "nym-mix"@, "nym-exit"@]
}

/// Presents a Nym mixnet backend, described by the profile it was made for,
/// as an anonymity backend.
#[derive(Debug)]
pub struct NymAnonymityAdapter {
    profile: AnonymityProfile,
}

impl NymAnonymityAdapter {
    pub closed spec fn profile_spec(&self) -> crate::types::AnonymityProfileView {
        self.profile@
    }

    /// The adapter for a Nym backend made for `profile`.
    pub fn with_profile(profile: AnonymityProfile) -> (r: Self)
        ensures
            r.profile_spec() == profile@,
    {
        NymAnonymityAdapter { profile }
    }

    /// The provider identifier, `nym`.
    pub fn provider_id(&self) -> (r: &'static str)
        ensures
            r@ == "nym"@,
    {
        "nym"
    }

    /// The adapter's profile.
    pub fn profile(&self) -> (r: &AnonymityProfile)
        ensures
            r@ == self.profile_spec(),
    {
        &self.profile
    }

    /// The status of the adapter, given the mixnet backend's status.
    pub fn status(&self, mixnet: &MixnetStatusSnapshot) -> (r: AnonymityStatus)
        ensures
            r@.running == mixnet.running,
            r@.stub_mode == mixnet.stub_mode,
            r@.socks_port == mixnet.socks_port,
            r@.profile_id == Some(self.profile_spec().id),
            r@.last_error == mixnet.last_error.deep_view(),
    {
        AnonymityStatus {
            running: mixnet.running,
            stub_mode: mixnet.stub_mode,
            socks_port: mixnet.socks_port,
            profile_id: Some(self.profile.id),
            last_error: mixnet.last_error.clone(),
        }
    }

    /// The current route, with a fresh id: entry and exit are the profile's
    /// gateway (or `nym-gateway`), over three Nym hops, on `socks_port`.
    pub fn route_info(&self, socks_port: Option<u16>) -> (r: AnonymityRoute)
        ensures
            r@.profile_id == self.profile_spec().id,
            r@.provider == AnonymityProvider::Nym,
            r@.entry_node == match self.profile_spec().gateway_id {
                Some(g) => g,
                None => "nym-gateway"@,
            },
            r@.exit_node == r@.entry_node,
            r@.hop_count == 3,
            r@.hops == nym_hops(),
            r@.socks_port == socks_port,
            is_random_uuid(r@.id),
    {
        let gateway = match &self.profile.gateway_id {
            Some(g) => g.clone(),
            None => String::from_str("nym-gateway"),
        };
        let mut hops: Vec<String> = Vec::new();
        hops.push(String::from_str("nym-entry"));
        hops.push(String::from_str("nym-mix"));
        hops.push(String::from_str("nym-exit"));
        assert(hops.deep_view() =~= nym_hops());
        AnonymityRoute {
            id: new_uuid(),
            profile_id: self.profile.id,
            provider: AnonymityProvider::Nym,
            entry_node: gateway.clone(),
            exit_node: gateway,
            hop_count: 3,
            hops,
            socks_port,
        }
    }

    /// The session of a start in which the mixnet backend came up on `port`
    /// and then reported `mixnet`: a fresh id, the current route and time.
    pub fn start_session(&self, port: u16, mixnet: &MixnetStatusSnapshot) -> (r: AnonymitySession)
        ensures
            r@.profile_id == self.profile_spec().id,
            r@.socks_port == port,
            r@.stub_mode == mixnet.stub_mode,
            is_random_uuid(r@.id),
            is_random_uuid(r@.route.id),
            r@.route.profile_id == self.profile_spec().id,
            r@.route.provider == AnonymityProvider::Nym,
            r@.route.entry_node == match self.profile_spec().gateway_id {
                Some(g) => g,
                None => "nym-gateway"@,
            },
            r@.route.exit_node == r@.route.entry_node,
            r@.route.hop_count == 3,
            r@.route.hops == nym_hops(),
            r@.route.socks_port == mixnet.socks_port,
    {
        let route = self.route_info(mixnet.socks_port);
        AnonymitySession {
            id: new_uuid(),
            profile_id: self.profile.id,
            route,
            socks_port: port,
            stub_mode: mixnet.stub_mode,
            started_at: now(),
        }
    }

    /// The privacy score: 0.35 while the mixnet backend is a stub, 0.82 otherwise.
    pub fn privacy_score(&self, mixnet: &MixnetStatusSnapshot) -> (r: Ratio)
        ensures
            r == (if mixnet.stub_mode {
                Ratio { num: 35, den: 100 }
            } else {
                Ratio { num: 82, den: 100 }
            }),
    {
        if mixnet.stub_mode {
            Ratio::new(35, 100)
        } else {
            Ratio::new(82, 100)
        }
    }
}

} // verus!
