//! Strategy for immediate updates.

use vstd::prelude::*;

use crate::strategy::QueryError;

verus! {

/// Strategy that permits each action outright according to two fixed flags,
/// with no schedule and no coordination. Its three predicates are total:
/// they can never fail.
#[derive(Clone, Copy, Debug)]
pub struct StrategyImmediate {
    /// Whether to check for and fetch updates.
    pub check: bool,
    /// Whether to finalize updates.
    pub finalize: bool,
}

/// The immediate policy built with no configuration: everything permitted.
pub open spec fn spec_default_immediate() -> StrategyImmediate {
    StrategyImmediate { check: true, finalize: true }
}

impl StrategyImmediate {
    /// Check if finalization is allowed: the `finalize` flag verbatim, and
    /// never an error.
    pub fn can_finalize(&self) -> (r: Result<bool, QueryError>)
        ensures
            r == Result::<bool, QueryError>::Ok(self.finalize),
    {
        Ok(self.finalize)
    }

    /// Report and enter steady state: granted unconditionally, whatever the
    /// two flags hold, and never an error.
    pub fn report_steady(&self) -> (r: Result<bool, QueryError>)
        ensures
            r == Result::<bool, QueryError>::Ok(true),
    {
        Ok(true)
    }

    /// Check if checking for updates is allowed: the `check` flag verbatim,
    /// and never an error.
    pub fn can_check_and_fetch(&self) -> (r: Result<bool, QueryError>)
        ensures
            r == Result::<bool, QueryError>::Ok(self.check),
    {
        Ok(self.check)
    }
}

impl Default for StrategyImmediate {
    /// Both permissions default to granted.
    fn default() -> (r: Self)
        ensures
            r == spec_default_immediate(),
    {
        StrategyImmediate { check: true, finalize: true }
    }
}

} // verus!
