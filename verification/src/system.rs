//! The cooperative system as a trace model.
//!
//! All tasks share one execution context; a scheduling history is a
//! sequence of events — sampler ticks with their acquisition outcomes, and
//! watchdog iterations.  The model below runs such a trace over the
//! channel's mathematical state, reusing the very decision functions the
//! tasks are verified against.  Two containment laws are proved on it: a
//! failed acquisition leaves the whole system state untouched, and the
//! watchdog feed count depends on nothing but the watchdog's own
//! iterations.

use vstd::prelude::*;

use crate::adc::DividerRatio;
use crate::channel::ChannelModel;
use crate::error::AcquisitionError;
use crate::metrics::Metrics;
use crate::sampler::{spec_temperature_sampler_step, spec_voltage_sampler_step};

verus! {

/// One event of the cooperative schedule.
pub enum SystemEvent {
    /// A temperature sampler tick: its acquisition outcome and the
    /// timestamp captured at acquisition time.
    TemperatureTick(Result<[u8; 2], AcquisitionError>, u64),
    /// A voltage sampler tick, likewise.
    VoltageTick(Result<u16, AcquisitionError>, u64),
    /// One iteration of the watchdog task.
    WatchdogTick,
}

/// Abstract state of the whole system: the channel, the fixed divider
/// ratio, and how many times the watchdog has been fed.
#[verifier::ext_equal]
pub struct SystemModel {
    pub bus: ChannelModel,
    pub divider_ratio: DividerRatio,
    pub watchdog_feeds: nat,
}

/// Delivery of a tick's outcome: a produced reading lands on every queue
/// when all have room, else the publisher is still waiting and the channel
/// is unchanged; a discarded tick delivers nothing.
pub open spec fn deliver(bus: ChannelModel, produced: Option<Metrics>) -> ChannelModel {
    match produced {
        Some(m) => if bus.can_publish() {
            bus.publish_to_all(m)
        } else {
            bus
        },
        None => bus,
    }
}

/// One step of the cooperative schedule.
pub open spec fn system_step(s: SystemModel, e: SystemEvent) -> SystemModel {
    match e {
        SystemEvent::TemperatureTick(acquired, ts) => SystemModel {
            bus: deliver(s.bus, spec_temperature_sampler_step(acquired, ts)),
            ..s
        },
        SystemEvent::VoltageTick(acquired, ts) => SystemModel {
            bus: deliver(s.bus, spec_voltage_sampler_step(s.divider_ratio, acquired, ts)),
            ..s
        },
        SystemEvent::WatchdogTick => SystemModel { watchdog_feeds: s.watchdog_feeds + 1, ..s },
    }
}

/// A whole trace, run in order.
pub open spec fn system_run(s: SystemModel, es: Seq<SystemEvent>) -> SystemModel
    decreases es.len(),
{
    if es.len() == 0 {
        s
    } else {
        system_run(system_step(s, es[0]), es.drop_first())
    }
}

/// How many watchdog iterations a trace holds.
pub open spec fn watchdog_ticks(es: Seq<SystemEvent>) -> nat
    decreases es.len(),
{
    if es.len() == 0 {
        0
    } else {
        (if es[0] is WatchdogTick {
            1nat
        } else {
            0nat
        }) + watchdog_ticks(es.drop_first())
    }
}

/// True of a trace made only of failed sampler ticks: an acquisition-error
/// storm.
pub open spec fn all_failed_ticks(es: Seq<SystemEvent>) -> bool {
    forall|i: int|
        0 <= i < es.len() ==> match #[trigger] es[i] {
            SystemEvent::TemperatureTick(acquired, _) => acquired is Err,
            SystemEvent::VoltageTick(acquired, _) => acquired is Err,
            SystemEvent::WatchdogTick => false,
        }
}

/// Fault containment: a failed acquisition changes nothing at all.  No
/// reading — malformed or otherwise — reaches the channel for the failed
/// tick, the sampler's next tick meets the same system state it would have
/// met anyway, and the sampler itself has no terminal state to enter.
pub proof fn lemma_fault_containment(s: SystemModel, e: SystemEvent)
    requires
        match e {
            SystemEvent::TemperatureTick(acquired, _) => acquired is Err,
            SystemEvent::VoltageTick(acquired, _) => acquired is Err,
            SystemEvent::WatchdogTick => false,
        },
    ensures
        system_step(s, e) == s,
{
    assert(system_step(s, e) =~= s);
}

/// An acquisition-error storm is invisible: a trace made only of failed
/// sampler ticks leaves the system state exactly where it was.
pub proof fn lemma_error_storm_invisible(s: SystemModel, es: Seq<SystemEvent>)
    requires
        all_failed_ticks(es),
    ensures
        system_run(s, es) == s,
    decreases es.len(),
{
    if es.len() > 0 {
        lemma_fault_containment(s, es[0]);
        lemma_error_storm_invisible(s, es.drop_first());
    }
}

/// Watchdog independence: over any trace — an acquisition-error storm on
/// every sampler included — the feed count advances by exactly the number
/// of watchdog iterations in the trace and by nothing else.  Sampler
/// outcomes cannot touch the feed cadence.
pub proof fn lemma_watchdog_independence(s: SystemModel, es: Seq<SystemEvent>)
    ensures
        system_run(s, es).watchdog_feeds == s.watchdog_feeds + watchdog_ticks(es),
    decreases es.len(),
{
    if es.len() > 0 {
        lemma_watchdog_independence(system_step(s, es[0]), es.drop_first());
    }
}

} // verus!
