//! Failure taxonomy of the monitor core.
//!
//! Per-reading failures are recoverable: the task that meets one reports it,
//! skips the reading and continues.  Capability exhaustion is a startup
//! configuration fault and aborts wiring before any task runs.

use vstd::prelude::*;

verus! {

/// A sensor read failed.  Recoverable: the sampler discards the tick and
/// tries again on the next one; nothing is published for the failed tick.
#[derive(Clone, Copy, PartialEq, Eq, Structural, Debug)]
pub enum AcquisitionError {
    /// The temperature register pair could not be read.
    TemperatureReading,
    /// The analog voltage sample could not be read.
    VoltageReading,
}

/// A display update failed.  Recoverable: the consumer reports it and keeps
/// draining its queue.
#[derive(Clone, Copy, PartialEq, Eq, Structural, Debug)]
pub enum RenderError {
    /// The display link rejected the frame.
    DisplayWrite,
}

/// A telemetry line could not be written to the text sink.  Recoverable in
/// the same way as a render failure.
#[derive(Clone, Copy, PartialEq, Eq, Structural, Debug)]
pub enum SinkError {
    /// The line-oriented sink rejected the write.
    LineWrite,
}

/// Startup wiring asked for more publisher or subscriber handles than the
/// channel was configured with.  Fatal: the system must not start with fewer
/// consumers than configured.
#[derive(Clone, Copy, PartialEq, Eq, Structural, Debug)]
pub struct CapabilityExhausted;

} // verus!
