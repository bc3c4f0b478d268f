//! Opaque, already-resolved description of this host.

use vstd::prelude::*;

verus! {

/// What identifies this host to the rest of the fleet. The gating core never
/// reads or mutates it; it is passed through to fleet-lock construction and
/// to every predicate query.
#[derive(Debug)]
pub struct Identity {
    /// Update group this host belongs to.
    pub group: String,
    /// Unique node identifier inside the fleet.
    pub node_uuid: String,
}

} // verus!
