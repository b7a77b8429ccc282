//! Verified core of a voltage- and ambient-temperature monitor.
//!
//! The library holds the telemetry distribution core: the broadcast channel
//! that fans readings out to independently paced consumers, the per-tick
//! decision logic of the sampling tasks that feed it, the consumer logic that
//! drains it, and the watchdog feed schedule.  Hardware access, the async
//! executor and the display driver live outside the library and hand it plain
//! values (raw samples, register bytes, timestamps in milliseconds).
//!
//! All quantities are carried as integers: temperatures in milli-degrees
//! Celsius, voltages in millivolts, timestamps in milliseconds.

pub mod adc;
pub mod channel;
pub mod config;
pub mod display;
pub mod error;
pub mod lm75;
pub mod metrics;
pub mod sampler;
pub mod system;
pub mod textfmt;
pub mod watchdog;
