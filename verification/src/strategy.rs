//! Update and reboot strategies: selection from configuration and the
//! uniform three-predicate gating contract.

pub mod fleet_lock;
pub mod immediate;
pub mod periodic;

use vstd::prelude::*;

use crate::config::{ConfigError, UpdateInput};
use crate::identity::Identity;
use crate::strategy::fleet_lock::{spec_build_fleet_lock, StrategyFleetLock};
use crate::strategy::immediate::{spec_default_immediate, StrategyImmediate};
use crate::strategy::periodic::{spec_build_periodic, StrategyPeriodic};

verus! {

/// Why a concrete policy failed to answer a predicate query (for instance a
/// failed remote lock negotiation).
#[derive(Debug)]
pub struct QueryError {
    /// Description of the failure, for the caller's log.
    pub message: String,
}

/// The settled outcome of one predicate query, after the fail-closed
/// wrapper.
#[derive(Debug)]
pub struct GateDecision {
    /// Whether the queried action is permitted.
    pub granted: bool,
    /// The policy failure behind a denial, if there was one: exactly one log
    /// record for the caller to emit.
    pub failure: Option<QueryError>,
}

/// Uniform fallback wrapper over a concrete policy's raw fallible answer:
/// a success passes through unchanged; a failure is turned into a denial
/// carrying the error to log. Under any policy malfunction the agent thus
/// defaults to "not permitted", never the reverse.
pub fn fail_closed(raw: Result<bool, QueryError>) -> (v: GateDecision)
    ensures
        raw matches Ok(b) ==> v.granted == b && v.failure is None,
        raw matches Err(e) ==> v.granted == false && v.failure == Some(e),
{
    match raw {
        Ok(b) => GateDecision { granted: b, failure: None },
        Err(e) => GateDecision { granted: false, failure: Some(e) },
    }
}

/// A predicate query taken as far as the library can on its own.
#[derive(Debug)]
pub enum QueryStep {
    /// The active policy answered by itself: its raw fallible answer, to be
    /// settled by `fail_closed`.
    Ready(Result<bool, QueryError>),
    /// The periodic-schedule runtime must decide whether the current time
    /// falls inside a window; its raw answer goes through `fail_closed`.
    ConsultPeriodic,
    /// The fleet-lock runtime must negotiate a slot with the remote
    /// coordinator; its raw answer goes through `fail_closed`.
    ConsultFleetLock,
}

/// The strategy selected for this agent's lifetime: exactly one of the
/// three concrete policies.
#[derive(Debug)]
pub enum UpdateStrategy {
    /// Fleet-wide coordinated updates.
    FleetLock(StrategyFleetLock),
    /// Unconditional (flag-gated) updates.
    Immediate(StrategyImmediate),
    /// Updates inside recurring weekly windows.
    Periodic(StrategyPeriodic),
}

/// The exact strategy a configuration selects: the four accepted names in
/// the order they are tried, everything else rejected with the offending
/// name. The empty name and `"immediate"` both mean the default immediate
/// policy: no strategy configured is safe, unconditional behaviour.
pub open spec fn spec_with_config(cfg: UpdateInput, identity: Identity) -> Result<
    UpdateStrategy,
    ConfigError,
> {
    if cfg.strategy@ == "fleet_lock"@ {
        match spec_build_fleet_lock(cfg.fleet_lock, identity) {
            Ok(f) => Ok(UpdateStrategy::FleetLock(f)),
            Err(e) => Err(e),
        }
    } else if cfg.strategy@ == "immediate"@ {
        Ok(UpdateStrategy::Immediate(spec_default_immediate()))
    } else if cfg.strategy@ == "periodic"@ {
        match spec_build_periodic(cfg.periodic) {
            Ok(p) => Ok(UpdateStrategy::Periodic(p)),
            Err(e) => Err(e),
        }
    } else if cfg.strategy@ == ""@ {
        Ok(UpdateStrategy::Immediate(spec_default_immediate()))
    } else {
        Err(ConfigError::UnsupportedStrategy { name: cfg.strategy })
    }
}

/// How the active policy answers "may I check for and fetch an update?".
pub open spec fn spec_check_step(s: UpdateStrategy) -> QueryStep {
    match s {
        UpdateStrategy::FleetLock(_) => QueryStep::ConsultFleetLock,
        UpdateStrategy::Immediate(imm) => QueryStep::Ready(Ok(imm.check)),
        UpdateStrategy::Periodic(_) => QueryStep::ConsultPeriodic,
    }
}

/// How the active policy answers "may I finalize the fetched update?".
pub open spec fn spec_finalize_step(s: UpdateStrategy) -> QueryStep {
    match s {
        UpdateStrategy::FleetLock(_) => QueryStep::ConsultFleetLock,
        UpdateStrategy::Immediate(imm) => QueryStep::Ready(Ok(imm.finalize)),
        UpdateStrategy::Periodic(_) => QueryStep::ConsultPeriodic,
    }
}

/// How the active policy answers "have I returned to steady state?".
pub open spec fn spec_steady_step(s: UpdateStrategy) -> QueryStep {
    match s {
        UpdateStrategy::FleetLock(_) => QueryStep::ConsultFleetLock,
        UpdateStrategy::Immediate(_) => QueryStep::Ready(Ok(true)),
        UpdateStrategy::Periodic(_) => QueryStep::ConsultPeriodic,
    }
}

/// The observability record a successful construction emits: the configured
/// mode name and, for the periodic policy, the derived schedule length.
#[derive(Debug)]
pub struct SelectionReport {
    /// The configured strategy name, as given (the empty name stays empty).
    pub mode: String,
    /// Total schedule length in minutes, for the periodic policy alone.
    pub periodic_schedule_minutes: Option<u64>,
}

impl UpdateStrategy {
    /// The invariant construction establishes on whichever policy it picks.
    pub open spec fn wf(&self) -> bool {
        match self {
            UpdateStrategy::FleetLock(f) => f.wf(),
            UpdateStrategy::Immediate(_) => true,
            UpdateStrategy::Periodic(p) => p.wf(),
        }
    }

    /// Try to parse config inputs into a valid strategy. The names are tried
    /// as `spec_with_config` lists them; an unsupported name fails
    /// construction carrying that name, so startup can abort with it.
    pub fn with_config(cfg: UpdateInput, identity: &Identity) -> (r: Result<
        UpdateStrategy,
        ConfigError,
    >)
        ensures
            r == spec_with_config(cfg, *identity),
            r matches Ok(s) ==> s.wf(),
    {
        if cfg.strategy == "fleet_lock".to_string() {
            Self::new_fleet_lock(cfg, identity)
        } else if cfg.strategy == "immediate".to_string() {
            Self::new_immediate()
        } else if cfg.strategy == "periodic".to_string() {
            Self::new_periodic(cfg)
        } else if cfg.strategy == "".to_string() {
            Ok(UpdateStrategy::default())
        } else {
            Err(ConfigError::UnsupportedStrategy { name: cfg.strategy })
        }
    }

    /// Build a new "immediate" strategy.
    pub fn new_immediate() -> (r: Result<UpdateStrategy, ConfigError>)
        ensures
            r == Ok::<UpdateStrategy, ConfigError>(
                UpdateStrategy::Immediate(spec_default_immediate()),
            ),
    {
        let immediate = StrategyImmediate::default();
        Ok(UpdateStrategy::Immediate(immediate))
    }

    /// Build a new "fleet_lock" strategy.
    pub fn new_fleet_lock(cfg: UpdateInput, identity: &Identity) -> (r: Result<
        UpdateStrategy,
        ConfigError,
    >)
        ensures
            r == match spec_build_fleet_lock(cfg.fleet_lock, *identity) {
                Ok(f) => Ok(UpdateStrategy::FleetLock(f)),
                Err(e) => Err::<UpdateStrategy, ConfigError>(e),
            },
            r matches Ok(s) ==> s.wf(),
    {
        match StrategyFleetLock::new(cfg.fleet_lock, identity) {
            Ok(fleet_lock) => Ok(UpdateStrategy::FleetLock(fleet_lock)),
            Err(e) => Err(e),
        }
    }

    /// Build a new "periodic" strategy.
    pub fn new_periodic(cfg: UpdateInput) -> (r: Result<UpdateStrategy, ConfigError>)
        ensures
            r == match spec_build_periodic(cfg.periodic) {
                Ok(p) => Ok(UpdateStrategy::Periodic(p)),
                Err(e) => Err::<UpdateStrategy, ConfigError>(e),
            },
            r matches Ok(s) ==> s.wf(),
    {
        match StrategyPeriodic::new(cfg.periodic) {
            Ok(periodic) => Ok(UpdateStrategy::Periodic(periodic)),
            Err(e) => Err(e),
        }
    }

    /// Check if this agent is allowed to check for updates at this time.
    /// The identity is carried for the collaborators; no policy mutates it.
    pub fn can_check_and_fetch(&self, _identity: &Identity) -> (step: QueryStep)
        ensures
            step == spec_check_step(*self),
    {
        match self {
            UpdateStrategy::FleetLock(_) => QueryStep::ConsultFleetLock,
            UpdateStrategy::Immediate(s) => QueryStep::Ready(s.can_check_and_fetch()),
            UpdateStrategy::Periodic(_) => QueryStep::ConsultPeriodic,
        }
    }

    /// Check if finalization is allowed at this time.
    pub fn can_finalize(&self, _identity: &Identity) -> (step: QueryStep)
        ensures
            step == spec_finalize_step(*self),
    {
        match self {
            UpdateStrategy::FleetLock(_) => QueryStep::ConsultFleetLock,
            UpdateStrategy::Immediate(s) => QueryStep::Ready(s.can_finalize()),
            UpdateStrategy::Periodic(_) => QueryStep::ConsultPeriodic,
        }
    }

    /// Try to report and enter steady state.
    pub fn report_steady(&self, _identity: &Identity) -> (step: QueryStep)
        ensures
            step == spec_steady_step(*self),
    {
        match self {
            UpdateStrategy::FleetLock(_) => QueryStep::ConsultFleetLock,
            UpdateStrategy::Immediate(s) => QueryStep::Ready(s.report_steady()),
            UpdateStrategy::Periodic(_) => QueryStep::ConsultPeriodic,
        }
    }

    /// The record for the observability side channel, with the configured
    /// name as the mode label and the schedule length when the periodic
    /// policy is active. Write-only output: nothing reads it back.
    pub fn selection_report(&self, strategy_name: &String) -> (r: SelectionReport)
        ensures
            r.mode@ == strategy_name@,
            match self {
                UpdateStrategy::Periodic(p) => r.periodic_schedule_minutes == Some(
                    p.schedule_length_minutes,
                ),
                _ => r.periodic_schedule_minutes is None,
            },
    {
        let minutes = match self {
            UpdateStrategy::Periodic(p) => Some(p.schedule_length_minutes),
            _ => None,
        };
        SelectionReport { mode: strategy_name.clone(), periodic_schedule_minutes: minutes }
    }
}

/// Law: a configuration with the empty strategy name and one with
/// `"immediate"` select the very same policy, the default immediate policy,
/// whatever the rest of either configuration and either identity hold; so
/// the two spellings are observably identical, and identical to the
/// explicitly built default.
pub proof fn lemma_default_names_equivalent(
    cfg_a: UpdateInput,
    cfg_b: UpdateInput,
    id_a: Identity,
    id_b: Identity,
)
    requires
        cfg_a.strategy@ == ""@,
        cfg_b.strategy@ == "immediate"@,
    ensures
        spec_with_config(cfg_a, id_a) == spec_with_config(cfg_b, id_b),
        spec_with_config(cfg_a, id_a) == Ok::<UpdateStrategy, ConfigError>(
            UpdateStrategy::Immediate(spec_default_immediate()),
        ),
{
    reveal_strlit("");
    reveal_strlit("immediate");
    reveal_strlit("periodic");
    reveal_strlit("fleet_lock");
    assert(""@.len() == 0);
    assert("immediate"@.len() == 9);
    assert("periodic"@.len() == 8);
    assert("fleet_lock"@.len() == 10);
}

impl Default for UpdateStrategy {
    /// With no strategy configured the agent behaves safely and
    /// unconditionally: the default immediate policy.
    fn default() -> (r: Self)
        ensures
            r == UpdateStrategy::Immediate(spec_default_immediate()),
    {
        let immediate = StrategyImmediate::default();
        UpdateStrategy::Immediate(immediate)
    }
}

} // verus!
