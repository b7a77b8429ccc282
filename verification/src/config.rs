//! Board-independent configuration constants of the monitor core.
//!
//! Pin wiring, peripheral handles and clock setup belong to the boot code
//! outside the library.  What the core logic itself depends on — resistor
//! legs, sampling periods, the sensor bus address — is fixed here.

use vstd::prelude::*;

use crate::adc::DividerRatio;
use crate::lm75::LM75_I2C_ADDRESS;

verus! {

/// Configuration of the analog voltage channel.
pub struct AdcConfig {}

impl AdcConfig {
    /// High-side divider leg, in ohms.
    pub const RESISTOR_A: u32 = 12_000;

    /// Low-side divider leg, in ohms.
    pub const RESISTOR_B: u32 = 1_000;

    /// Fixed sampling period of the voltage sampler, in milliseconds.
    pub const READING_PERIOD_MS: u64 = 1_000;

    /// The board's divider ratio, `(RESISTOR_A + RESISTOR_B) / RESISTOR_B`.
    pub fn divider_ratio() -> (r: DividerRatio)
        ensures
            r.numerator == AdcConfig::RESISTOR_A + AdcConfig::RESISTOR_B,
            r.denominator == AdcConfig::RESISTOR_B,
            r.wf(),
    {
        DividerRatio::from_resistors(AdcConfig::RESISTOR_A, AdcConfig::RESISTOR_B)
    }
}

/// Configuration of the digital temperature channel.
pub struct Lm75Config {}

impl Lm75Config {
    /// Bus address of the temperature sensor.
    pub const I2C_ADDRESS: u8 = LM75_I2C_ADDRESS;

    /// Fixed sampling period of the temperature sampler, in milliseconds.
    pub const READING_PERIOD_MS: u64 = 1_000;
}

} // verus!
