use vstd::prelude::*;
use crate::ratio::Ratio;
use crate::types::AnonymityProvider;

verus! {

/// Security constraints applied when launching anonymity providers.
#[derive(Debug, Clone)]
pub struct AnonymitySecurityPolicy {
    /// Require provider binaries to exist before starting (no stub fallback).
    pub require_binaries: bool,
    /// Allowed provider kinds (empty = allow all).
    pub allowed_providers: Vec<AnonymityProvider>,
    /// Maximum subprocess restarts within a session.
    pub max_restarts: u32,
    /// Bind local SOCKS relay to loopback only.
    pub loopback_only: bool,
    /// Minimum privacy score required to keep a session active.
    pub min_privacy_score: Ratio,
}

impl Default for AnonymitySecurityPolicy {
    fn default() -> (r: Self)
        ensures
            !r.require_binaries,
            r.allowed_providers@.len() == 0,
            r.max_restarts == 3,
            r.loopback_only,
            r.min_privacy_score == (Ratio { num: 0, den: 1 }),
    {
        AnonymitySecurityPolicy {
            require_binaries: false,
            allowed_providers: Vec::new(),
            max_restarts: 3,
            loopback_only: true,
            min_privacy_score: Ratio::zero(),
        }
    }
}

impl AnonymitySecurityPolicy {
    /// Whether the policy lets `provider` be launched: an empty allow-list
    /// permits every provider, otherwise the provider must be listed.
    pub open spec fn permits(&self, provider: AnonymityProvider) -> bool {
        self.allowed_providers@.len() == 0 || self.allowed_providers@.contains(provider)
    }

    /// Whether the policy lets `provider` be launched.
    pub fn provider_allowed(&self, provider: &AnonymityProvider) -> (r: bool)
        ensures
            r == self.permits(*provider),
    {
        if self.allowed_providers.len() == 0 {
            return true;
        }
        let mut i: usize = 0;
        while i < self.allowed_providers.len()
            invariant
                i <= self.allowed_providers.len(),
                forall|j: int| 0 <= j < i ==> self.allowed_providers@[j] != *provider,
            decreases self.allowed_providers.len() - i,
        {
            if self.allowed_providers[i] == *provider {
                return true;
            }
            i = i + 1;
        }
        false
    }

    /// Whether a session of privacy `score` may stay active: the score is at
    /// least the policy's minimum.
    pub fn privacy_score_allowed(&self, score: Ratio) -> (r: bool)
        ensures
            r == self.min_privacy_score.le_spec(score),
    {
        self.min_privacy_score.le(&score)
    }
}

/// An empty allow-list permits every provider, of every kind, plugins
/// included; a non-empty one permits exactly the providers it lists.
pub proof fn lemma_allowlist_permits(policy: AnonymitySecurityPolicy, provider: AnonymityProvider)
    ensures
        policy.allowed_providers@.len() == 0 ==> policy.permits(provider),
        policy.allowed_providers@.len() > 0 ==> (policy.permits(provider) <==> exists|i: int|
            0 <= i < policy.allowed_providers@.len() && #[trigger] policy.allowed_providers@[i] == provider),
{
    if policy.allowed_providers@.len() > 0 && policy.permits(provider) {
        let i = choose|i: int| 0 <= i < policy.allowed_providers@.len() && policy.allowed_providers@[i] == provider;
        assert(policy.allowed_providers@[i] == provider);
    }
}

/// Listing a provider never withdraws permission from another: every
/// provider that a policy permits, it still permits with one more provider
/// on a non-empty allow-list, and the added provider becomes permitted.
pub proof fn lemma_allowlist_extension(
    before: AnonymitySecurityPolicy,
    after: AnonymitySecurityPolicy,
    added: AnonymityProvider,
    other: AnonymityProvider,
)
    requires
        before.allowed_providers@.len() > 0,
        after.allowed_providers@ == before.allowed_providers@.push(added),
    ensures
        before.permits(other) ==> after.permits(other),
        after.permits(added),
{
    if before.permits(other) {
        let k = choose|k: int| 0 <= k < before.allowed_providers@.len() && before.allowed_providers@[k] == other;
        assert(after.allowed_providers@[k] == other);
    }
    assert(after.allowed_providers@[before.allowed_providers@.len() as int] == added);
}

} // verus!
