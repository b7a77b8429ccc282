//! Sampler tasks: per-tick decisions.
//!
//! A sampler is a periodic loop: wait for the tick, acquire from its sensor,
//! and on success wrap the raw value as a reading for the channel.  An
//! acquisition failure is contained: the tick is discarded, nothing is
//! published for it, and the loop goes on to the next tick — a failure never
//! terminates the task and never back-pressures the channel.
//!
//! The waiting and the hardware acquisition live outside the library; the
//! functions here are the decision each tick ends in, given the acquisition
//! outcome and the timestamp captured at acquisition time.

use vstd::prelude::*;

use crate::adc::{scaled_millivolts, AdcReader, DividerRatio};
use crate::error::AcquisitionError;
use crate::lm75::temp_milli_celsius;
use crate::metrics::{AmbientTemperature, Metrics, VoltageFeedback};

verus! {

/// The reading a voltage tick publishes: the scaled sample on success,
/// nothing on failure.
pub open spec fn spec_voltage_sampler_step(
    ratio: DividerRatio,
    acquired: Result<u16, AcquisitionError>,
    timestamp_ms: u64,
) -> Option<Metrics> {
    match acquired {
        Ok(sample) => Some(
            Metrics::VoltageFeedback(
                VoltageFeedback {
                    timestamp_ms,
                    millivolts: scaled_millivolts(sample, ratio) as u64,
                },
            ),
        ),
        Err(_) => None,
    }
}

/// The reading a temperature tick publishes: the converted register pair on
/// success, nothing on failure.
pub open spec fn spec_temperature_sampler_step(
    acquired: Result<[u8; 2], AcquisitionError>,
    timestamp_ms: u64,
) -> Option<Metrics> {
    match acquired {
        Ok(data) => Some(
            Metrics::AmbientTemperature(
                AmbientTemperature {
                    timestamp_ms,
                    milli_celsius: temp_milli_celsius(data[0], data[1]) as i32,
                },
            ),
        ),
        Err(_) => None,
    }
}

/// One tick of the voltage sampler: a successful sample becomes a voltage
/// reading stamped with the acquisition time; a failure becomes no reading
/// at all, and the caller goes on to the next tick.
pub fn voltage_sampler_step(
    reader: &AdcReader,
    acquired: Result<u16, AcquisitionError>,
    timestamp_ms: u64,
) -> (m: Option<Metrics>)
    requires
        reader.wf(),
    ensures
        m == spec_voltage_sampler_step(reader.spec_divider_ratio(), acquired, timestamp_ms),
        acquired is Err ==> m is None,
{
    match acquired {
        Ok(sample) => {
            let millivolts = reader.read_voltage(sample);
            Some(VoltageFeedback::build(millivolts, timestamp_ms))
        },
        Err(_) => None,
    }
}

/// One tick of the temperature sampler: a successfully read register pair
/// becomes a temperature reading stamped with the acquisition time; a
/// failure becomes no reading at all, and the caller goes on to the next
/// tick.
pub fn temperature_sampler_step(
    acquired: Result<[u8; 2], AcquisitionError>,
    timestamp_ms: u64,
) -> (m: Option<Metrics>)
    ensures
        m == spec_temperature_sampler_step(acquired, timestamp_ms),
        acquired is Err ==> m is None,
{
    match acquired {
        Ok(data) => {
            let milli_celsius = crate::lm75::Lm75Reader::convert_temp_from_register(&data);
            Some(AmbientTemperature::build(milli_celsius, timestamp_ms))
        },
        Err(_) => None,
    }
}

} // verus!
