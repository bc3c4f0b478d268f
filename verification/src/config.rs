//! Validated raw configuration handed to strategy selection once at startup.

use vstd::prelude::*;

verus! {

/// Minutes in one week, the span of the recurring update schedule.
pub const MINUTES_PER_WEEK: u32 = 10080;

/// One window of a weekly recurring schedule, in minutes from the start of
/// the week.
#[derive(Clone, Copy, Debug)]
pub struct PeriodicWindow {
    /// First minute of the window, counted from the start of the week.
    pub start_minute: u32,
    /// Length of the window in minutes.
    pub length_minutes: u32,
}

/// A window is well-formed when it starts inside the week and spans at least
/// one minute and at most a whole week.
pub open spec fn window_ok(w: PeriodicWindow) -> bool {
    w.start_minute < MINUTES_PER_WEEK && 1 <= w.length_minutes <= MINUTES_PER_WEEK
}

/// Configuration consumed only by the periodic policy.
#[derive(Debug)]
pub struct PeriodicInput {
    /// The windows of the recurring schedule.
    pub windows: Vec<PeriodicWindow>,
}

/// Configuration consumed only by the fleet-lock policy.
#[derive(Debug)]
pub struct FleetLockInput {
    /// Base URL of the remote lock coordinator.
    pub base_url: String,
}

/// Validated raw configuration: the chosen strategy name plus the fields
/// each concrete policy reads.
#[derive(Debug)]
pub struct UpdateInput {
    /// Name of the strategy to run: `""`, `"immediate"`, `"periodic"` or
    /// `"fleet_lock"`; anything else is rejected at construction.
    pub strategy: String,
    /// Parameters for the fleet-lock policy.
    pub fleet_lock: FleetLockInput,
    /// Parameters for the periodic policy.
    pub periodic: PeriodicInput,
}

/// Construction-time failure; agent startup should treat it as fatal.
#[derive(Debug)]
pub enum ConfigError {
    /// The strategy name is none of the accepted ones; holds the rejected
    /// name.
    UnsupportedStrategy { name: String },
    /// The fleet-lock policy was selected but the coordinator URL is empty.
    EmptyBaseUrl,
    /// The periodic policy was selected with no window at all.
    EmptySchedule,
    /// The periodic policy was selected with a window outside the week or
    /// without a single minute in it.
    InvalidWindow,
    /// The periodic policy was selected with windows whose total length does
    /// not fit the schedule-length counter.
    ScheduleTooLong,
}

} // verus!
