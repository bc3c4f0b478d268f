//! Strategy for fleet-wide coordinated updates.
//!
//! Every predicate of this policy is answered by a remote lock coordinator;
//! the negotiation itself happens outside this library, and its raw answer
//! comes back through the uniform fail-closed wrapper. This module keeps the
//! coordination parameters the negotiation needs.

use vstd::prelude::*;
use vstd::string::StrSliceExecFns;

use crate::config::{ConfigError, FleetLockInput};
use crate::identity::Identity;

verus! {

/// Strategy that negotiates a reboot slot with a fleet-wide coordinator,
/// keyed by this host's identity.
#[derive(Debug)]
pub struct StrategyFleetLock {
    /// Base URL of the remote lock coordinator.
    pub base_url: String,
    /// Update group of the owning host.
    pub group: String,
    /// Node identifier of the owning host.
    pub node_uuid: String,
}

/// The exact outcome of building a fleet-lock policy: the coordinator URL is
/// required; the identity is carried over unchanged.
pub open spec fn spec_build_fleet_lock(input: FleetLockInput, identity: Identity) -> Result<
    StrategyFleetLock,
    ConfigError,
> {
    if input.base_url@.len() == 0 {
        Err(ConfigError::EmptyBaseUrl)
    } else {
        Ok(
            StrategyFleetLock {
                base_url: input.base_url,
                group: identity.group,
                node_uuid: identity.node_uuid,
            },
        )
    }
}

impl StrategyFleetLock {
    /// Every value this module builds satisfies this invariant: the
    /// coordinator URL is never empty.
    pub open spec fn wf(&self) -> bool {
        self.base_url@.len() > 0
    }

    /// Try to parse config inputs into a valid fleet-lock strategy.
    pub fn new(input: FleetLockInput, identity: &Identity) -> (r: Result<
        StrategyFleetLock,
        ConfigError,
    >)
        ensures
            r == spec_build_fleet_lock(input, *identity),
            r matches Ok(f) ==> f.wf(),
    {
        if input.base_url.as_str().unicode_len() == 0 {
            Err(ConfigError::EmptyBaseUrl)
        } else {
            Ok(
                StrategyFleetLock {
                    base_url: input.base_url,
                    group: identity.group.clone(),
                    node_uuid: identity.node_uuid.clone(),
                },
            )
        }
    }
}

} // verus!
