use vstd::prelude::*;
use vstd::string::*;
use crate::ids::{is_random_uuid, new_uuid, now, uuid_string, uuid_text, Timestamp};

verus! {

/// Supported anonymity transport providers.
#[derive(Debug, Clone, Copy, PartialEq, Eq, Structural)]
pub enum AnonymityProvider {
    Nym,
    Katzenpost,
    Loopix,
    /// A plugin provider, named by the UUID (as its 128-bit value) of the plugin.
    Plugin(u128),
    Federated,
}

impl AnonymityProvider {
    /// The identifier text of the provider: `nym`, `katzenpost`, `loopix`,
    /// `plugin:` followed by the plugin's UUID text, or `federated`.
    pub open spec fn id_text(self) -> Seq<char> {
        match self {
            AnonymityProvider::Nym => "nym"@,
            AnonymityProvider::Katzenpost => "katzenpost"@,
            AnonymityProvider::Loopix => "loopix"@,
            AnonymityProvider::Plugin(id) => "plugin:"@ + uuid_text(id),
            AnonymityProvider::Federated => "federated"@,
        }
    }
}

/// Configuration for an anonymity backend profile. Identifiers are UUIDs as
/// their 128-bit values, times are seconds and nanoseconds since the Unix epoch, and the
/// optional provider configuration is kept as JSON text.
#[derive(Debug)]
pub struct AnonymityProfile {
    pub id: u128,
    pub name: String,
    pub provider: AnonymityProvider,
    pub gateway_id: Option<String>,
    pub config_json: Option<String>,
    pub enabled: bool,
    pub created_at: Timestamp,
    pub updated_at: Timestamp,
}

/// The value of an [`AnonymityProfile`], with texts as character sequences.
pub struct AnonymityProfileView {
    pub id: u128,
    pub name: Seq<char>,
    pub provider: AnonymityProvider,
    pub gateway_id: Option<Seq<char>>,
    pub config_json: Option<Seq<char>>,
    pub enabled: bool,
    pub created_at: Timestamp,
    pub updated_at: Timestamp,
}

impl View for AnonymityProfile {
    type V = AnonymityProfileView;

    open spec fn view(&self) -> AnonymityProfileView {
        AnonymityProfileView {
            id: self.id,
            name: self.name@,
            provider: self.provider,
            gateway_id: self.gateway_id.deep_view(),
            config_json: self.config_json.deep_view(),
            enabled: self.enabled,
            created_at: self.created_at,
            updated_at: self.updated_at,
        }
    }
}

impl Clone for AnonymityProfile {
    fn clone(&self) -> (r: Self)
        ensures
            r@ == self@,
    {
        AnonymityProfile {
            id: self.id,
            name: self.name.clone(),
            provider: self.provider,
            gateway_id: self.gateway_id.clone(),
            config_json: self.config_json.clone(),
            enabled: self.enabled,
            created_at: self.created_at,
            updated_at: self.updated_at,
        }
    }
}

impl AnonymityProfile {
    /// An enabled profile named `name` for `provider`, with a fresh random id,
    /// no gateway, no configuration, and both timestamps set to the current time.
    pub fn new(name: &str, provider: AnonymityProvider) -> (r: Self)
        ensures
            r@.name == name@,
            r@.provider == provider,
            r@.gateway_id is None,
            r@.config_json is None,
            r@.enabled,
            r@.created_at == r@.updated_at,
            is_random_uuid(r@.id),
    {
        let now = now();
        AnonymityProfile {
            id: new_uuid(),
            name: String::from_str(name),
            provider,
            gateway_id: None,
            config_json: None,
            enabled: true,
            created_at: now,
            updated_at: now,
        }
    }

    /// The identifier text of the profile's provider.
    pub fn provider_id(&self) -> (r: String)
        ensures
            r@ == self.provider.id_text(),
    {
        match self.provider {
            AnonymityProvider::Nym => String::from_str("nym"),
            AnonymityProvider::Katzenpost => String::from_str("katzenpost"),
            AnonymityProvider::Loopix => String::from_str("loopix"),
            AnonymityProvider::Plugin(id) => {
                let mut s = String::from_str("plugin:");
                let text = uuid_string(id);
                s.append(text.as_str());
                s
            },
            AnonymityProvider::Federated => String::from_str("federated"),
        }
    }
}

/// Active anonymous route metadata.
#[derive(Debug)]
pub struct AnonymityRoute {
    pub id: u128,
    pub profile_id: u128,
    pub provider: AnonymityProvider,
    pub entry_node: String,
    pub exit_node: String,
    pub hop_count: u32,
    pub hops: Vec<String>,
    pub socks_port: Option<u16>,
}

/// The value of an [`AnonymityRoute`], with texts as character sequences.
pub struct AnonymityRouteView {
    pub id: u128,
    pub profile_id: u128,
    pub provider: AnonymityProvider,
    pub entry_node: Seq<char>,
    pub exit_node: Seq<char>,
    pub hop_count: u32,
    pub hops: Seq<Seq<char>>,
    pub socks_port: Option<u16>,
}

impl View for AnonymityRoute {
    type V = AnonymityRouteView;

    open spec fn view(&self) -> AnonymityRouteView {
        AnonymityRouteView {
            id: self.id,
            profile_id: self.profile_id,
            provider: self.provider,
            entry_node: self.entry_node@,
            exit_node: self.exit_node@,
            hop_count: self.hop_count,
            hops: self.hops.deep_view(),
            socks_port: self.socks_port,
        }
    }
}

/// A copy of `v` whose elements have the same texts.
fn clone_strings(v: &Vec<String>) -> (r: Vec<String>)
    ensures
        r.deep_view() == v.deep_view(),
{
    let r = v.clone();
    assert(r.deep_view() =~= v.deep_view());
    r
}

impl Clone for AnonymityRoute {
    fn clone(&self) -> (r: Self)
        ensures
            r@ == self@,
    {
        AnonymityRoute {
            id: self.id,
            profile_id: self.profile_id,
            provider: self.provider,
            entry_node: self.entry_node.clone(),
            exit_node: self.exit_node.clone(),
            hop_count: self.hop_count,
            hops: clone_strings(&self.hops),
            socks_port: self.socks_port,
        }
    }
}

/// Runtime session for an anonymity backend.
#[derive(Debug, Clone)]
pub struct AnonymitySession {
    pub id: u128,
    pub profile_id: u128,
    pub route: AnonymityRoute,
    pub socks_port: u16,
    pub stub_mode: bool,
    pub started_at: Timestamp,
}

/// The value of an [`AnonymitySession`].
pub struct AnonymitySessionView {
    pub id: u128,
    pub profile_id: u128,
    pub route: AnonymityRouteView,
    pub socks_port: u16,
    pub stub_mode: bool,
    pub started_at: Timestamp,
}

impl View for AnonymitySession {
    type V = AnonymitySessionView;

    open spec fn view(&self) -> AnonymitySessionView {
        AnonymitySessionView {
            id: self.id,
            profile_id: self.profile_id,
            route: self.route@,
            socks_port: self.socks_port,
            stub_mode: self.stub_mode,
            started_at: self.started_at,
        }
    }
}

/// Live status reported by an anonymity backend.
#[derive(Debug, Clone)]
pub struct AnonymityStatus {
    pub running: bool,
    pub stub_mode: bool,
    pub socks_port: Option<u16>,
    pub profile_id: Option<u128>,
    pub last_error: Option<String>,
}

/// The value of an [`AnonymityStatus`].
pub struct AnonymityStatusView {
    pub running: bool,
    pub stub_mode: bool,
    pub socks_port: Option<u16>,
    pub profile_id: Option<u128>,
    pub last_error: Option<Seq<char>>,
}

impl View for AnonymityStatus {
    type V = AnonymityStatusView;

    open spec fn view(&self) -> AnonymityStatusView {
        AnonymityStatusView {
            running: self.running,
            stub_mode: self.stub_mode,
            socks_port: self.socks_port,
            profile_id: self.profile_id,
            last_error: self.last_error.deep_view(),
        }
    }
}

/// Health snapshot for an anonymity backend.
#[derive(Debug, Clone)]
pub struct AnonymityHealth {
    pub healthy: bool,
    pub latency_ms: Option<u64>,
    pub message: Option<String>,
    pub checked_at: Timestamp,
}

/// The value of an [`AnonymityHealth`].
pub struct AnonymityHealthView {
    pub healthy: bool,
    pub latency_ms: Option<u64>,
    pub message: Option<Seq<char>>,
    pub checked_at: Timestamp,
}

impl View for AnonymityHealth {
    type V = AnonymityHealthView;

    open spec fn view(&self) -> AnonymityHealthView {
        AnonymityHealthView {
            healthy: self.healthy,
            latency_ms: self.latency_ms,
            message: self.message.deep_view(),
            checked_at: self.checked_at,
        }
    }
}

impl AnonymityHealth {
    /// A healthy report with `message`, checked now, with no latency figure.
    pub fn ok(message: &str) -> (r: Self)
        ensures
            r@.healthy,
            r@.latency_ms is None,
            r@.message == Some(message@),
    {
        AnonymityHealth {
            healthy: true,
            latency_ms: None,
            message: Some(String::from_str(message)),
            checked_at: now(),
        }
    }

    /// An unhealthy report with `message`, checked now, with no latency figure.
    pub fn degraded(message: &str) -> (r: Self)
        ensures
            !r@.healthy,
            r@.latency_ms is None,
            r@.message == Some(message@),
    {
        AnonymityHealth {
            healthy: false,
            latency_ms: None,
            message: Some(String::from_str(message)),
            checked_at: now(),
        }
    }
}

} // verus!
