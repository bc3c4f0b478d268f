//! Strategy for periodic (scheduled-window) updates.
//!
//! The schedule arithmetic itself — whether "now" falls inside a window —
//! is the runtime's business; this module validates the configured windows,
//! derives the total schedule length used for reporting, and keeps both as
//! the policy's state.

use vstd::prelude::*;

use crate::config::{window_ok, ConfigError, PeriodicInput, PeriodicWindow, MINUTES_PER_WEEK};

verus! {

/// Strategy that permits updates only inside recurring weekly windows.
/// Whether the current time falls inside one is decided outside this
/// library; the policy holds the validated schedule and its derived total
/// length in minutes.
#[derive(Debug)]
pub struct StrategyPeriodic {
    /// The validated windows of the recurring schedule.
    pub windows: Vec<PeriodicWindow>,
    /// Total length of the schedule in minutes, for reporting.
    pub schedule_length_minutes: u64,
}

/// Total length in minutes of a sequence of windows.
pub open spec fn schedule_total(ws: Seq<PeriodicWindow>) -> int
    decreases ws.len(),
{
    if ws.len() == 0 {
        0
    } else {
        schedule_total(ws.drop_last()) + ws.last().length_minutes
    }
}

/// The exact outcome of building a periodic policy from its configuration:
/// a schedule must have at least one window, every window must be
/// well-formed, and the total length must fit the reporting counter.
pub open spec fn spec_build_periodic(input: PeriodicInput) -> Result<StrategyPeriodic, ConfigError> {
    if input.windows@.len() == 0 {
        Err(ConfigError::EmptySchedule)
    } else if exists|i: int| 0 <= i < input.windows@.len() && !window_ok(input.windows@[i]) {
        Err(ConfigError::InvalidWindow)
    } else if schedule_total(input.windows@) > u64::MAX {
        Err(ConfigError::ScheduleTooLong)
    } else {
        Ok(
            StrategyPeriodic {
                windows: input.windows,
                schedule_length_minutes: schedule_total(input.windows@) as u64,
            },
        )
    }
}

/// Appending one more window adds exactly its length to the total.
proof fn lemma_schedule_total_step(ws: Seq<PeriodicWindow>, j: int)
    requires
        0 <= j < ws.len(),
    ensures
        schedule_total(ws.take(j + 1)) == schedule_total(ws.take(j)) + ws[j].length_minutes,
{
    assert(ws.take(j + 1).drop_last() =~= ws.take(j));
    assert(ws.take(j + 1).last() == ws[j]);
}

/// The total over a prefix never exceeds the total over the whole schedule.
proof fn lemma_schedule_total_prefix_le(ws: Seq<PeriodicWindow>, j: int)
    requires
        0 <= j <= ws.len(),
    ensures
        schedule_total(ws.take(j)) <= schedule_total(ws),
    decreases ws.len() - j,
{
    if j == ws.len() {
        assert(ws.take(j) =~= ws);
    } else {
        lemma_schedule_total_step(ws, j);
        lemma_schedule_total_prefix_le(ws, j + 1);
    }
}

impl StrategyPeriodic {
    /// Every value this module builds satisfies this invariant: a non-empty
    /// schedule of well-formed windows whose recorded length is the sum of
    /// the windows' lengths.
    pub open spec fn wf(&self) -> bool {
        &&& self.windows@.len() > 0
        &&& forall|i: int| 0 <= i < self.windows@.len() ==> window_ok(self.windows@[i])
        &&& self.schedule_length_minutes == schedule_total(self.windows@)
    }

    /// Try to parse config inputs into a valid periodic strategy.
    pub fn new(input: PeriodicInput) -> (r: Result<StrategyPeriodic, ConfigError>)
        ensures
            r == spec_build_periodic(input),
            r matches Ok(p) ==> p.wf(),
    {
        let n = input.windows.len();
        if n == 0 {
            return Err(ConfigError::EmptySchedule);
        }
        let mut i: usize = 0;
        while i < n
            invariant
                n == input.windows@.len(),
                0 <= i <= n,
                forall|j: int| 0 <= j < i ==> window_ok(input.windows@[j]),
            decreases n - i,
        {
            let w = input.windows[i];
            if !(w.start_minute < MINUTES_PER_WEEK && 1 <= w.length_minutes
                && w.length_minutes <= MINUTES_PER_WEEK) {
                return Err(ConfigError::InvalidWindow);
            }
            i += 1;
        }
        let mut total: u64 = 0;
        let mut k: usize = 0;
        while k < n
            invariant
                n == input.windows@.len(),
                0 < n,
                0 <= k <= n,
                forall|j: int| 0 <= j < n ==> window_ok(input.windows@[j]),
                total as int == schedule_total(input.windows@.take(k as int)),
            decreases n - k,
        {
            let w = input.windows[k];
            proof {
                lemma_schedule_total_step(input.windows@, k as int);
            }
            match total.checked_add(w.length_minutes as u64) {
                Some(t) => {
                    total = t;
                },
                None => {
                    proof {
                        lemma_schedule_total_prefix_le(input.windows@, k + 1);
                    }
                    return Err(ConfigError::ScheduleTooLong);
                },
            }
            k += 1;
        }
        proof {
            assert(input.windows@.take(n as int) =~= input.windows@);
        }
        Ok(
            StrategyPeriodic {
                windows: input.windows,
                schedule_length_minutes: total,
            },
        )
    }
}

} // verus!
