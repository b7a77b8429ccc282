//! Watchdog task: the feed schedule.
//!
//! A hardware watchdog timer resets the device unless fed before its
//! timeout.  The watchdog task is the scheduler-stall detector: it feeds the
//! timer on a fixed period strictly shorter than the timeout and depends on
//! nothing else — not on the channel, not on any sensor — so that transient
//! sensor faults can never cause a reset, while a stalled executor always
//! does.
//!
//! The hardware calls (`enable`, arming the timeout, `feed`) live outside
//! the library; the schedule they follow is fixed here.

use vstd::prelude::*;

verus! {

/// Configuration of the watchdog task.
pub struct WatchdogConfig {}

impl WatchdogConfig {
    /// Hardware timeout armed once at startup, in milliseconds.
    pub const TIMEOUT_MS: u64 = 2_000;

    /// Feed period of the watchdog task, in milliseconds; strictly shorter
    /// than the timeout.
    pub const FEED_PERIOD_MS: u64 = 500;
}

/// The millisecond at which the `k`-th feed after `start_ms` is due.
pub open spec fn feed_time(start_ms: nat, k: nat) -> nat {
    (start_ms + k * WatchdogConfig::FEED_PERIOD_MS) as nat
}

/// The feed cadence: consecutive feeds are one feed period apart, and the
/// period stays strictly inside the armed timeout, so a feed is always due
/// before the deadline that the previous feed reset.
pub proof fn lemma_feed_cadence(start_ms: nat, k: nat)
    ensures
        feed_time(start_ms, k + 1) == feed_time(start_ms, k) + WatchdogConfig::FEED_PERIOD_MS,
        WatchdogConfig::FEED_PERIOD_MS < WatchdogConfig::TIMEOUT_MS,
{
    assert((k + 1) * WatchdogConfig::FEED_PERIOD_MS == k * WatchdogConfig::FEED_PERIOD_MS
        + WatchdogConfig::FEED_PERIOD_MS) by (nonlinear_arith);
}

/// The next moment the watchdog task must wake to feed, one period from
/// now.  The deadline keeps its margin: it falls strictly inside the armed
/// timeout.
pub fn next_feed_deadline(now_ms: u64) -> (deadline: u64)
    requires
        now_ms + WatchdogConfig::FEED_PERIOD_MS <= u64::MAX,
    ensures
        deadline == now_ms + WatchdogConfig::FEED_PERIOD_MS,
        deadline < now_ms + WatchdogConfig::TIMEOUT_MS,
{
    now_ms + WatchdogConfig::FEED_PERIOD_MS
}

} // verus!
