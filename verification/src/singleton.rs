//! The one shared instance of server state.
//!
//! Instead of a lazily-initialized global service object, the server builds
//! this context explicitly at process start and passes it, read-only, into
//! every session handler.  It owns everything the sessions share: the trust
//! material, the authorization policy and the per-request execution limits.

use vstd::prelude::*;

use crate::auth::TrustConfiguration;
use crate::engine::EngineConfig;
use crate::policy::Policy;

verus! {

/// The process-wide server context, constructed once and shared read-only
/// by all sessions.  Reloading it requires a restart.
#[derive(Clone, PartialEq, Eq, Debug)]
pub struct Singleton {
    pub trust: TrustConfiguration,
    pub policy: Policy,
    pub engine: EngineConfig,
}

impl Singleton {
    /// Builds the shared context from the material loaded at startup.
    pub fn new(trust: TrustConfiguration, policy: Policy, engine: EngineConfig) -> (s: Singleton)
        ensures
            s.trust == trust,
            s.policy == policy,
            s.engine == engine,
    {
        Singleton { trust, policy, engine }
    }
}

} // verus!
