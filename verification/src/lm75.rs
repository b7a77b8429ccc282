//! Two-wire digital temperature sensor: register-pair conversion.
//!
//! The sensor reports temperature as a two-byte register pair.  The high byte
//! is the two's-complement integer part in degrees Celsius; the top three
//! bits of the low byte count eighths of a degree, 0.125 degrees each.  The
//! conversion must be exact: a silent sign or shift error here corrupts every
//! downstream reading.  The library represents the result in milli-degrees
//! Celsius, where one eighth of a degree is exactly 125.
//!
//! The bus transaction that fetches the register pair happens outside the
//! library; the reader here is handed the raw bytes (or a failure) and does
//! the verified part: interpretation.

use vstd::prelude::*;

verus! {

/// Bus address of the temperature sensor.
pub const LM75_I2C_ADDRESS: u8 = 0x48;

/// Mask of the bits that carry data at 11-bit resolution, over the full
/// 16-bit register pair.
pub const BIT_MASK_RESOLUTION_11BIT: u16 = 0b1111_1111_1110_0000;

/// Low-byte half of `BIT_MASK_RESOLUTION_11BIT`: the three fraction bits.
pub const FRACTION_MASK: u8 = 0b1110_0000;

/// Milli-degrees in one fraction step (an eighth of a degree).
pub const MILLI_PER_STEP: i32 = 125;

/// A temperature read failed.
#[derive(Clone, Copy, PartialEq, Eq, Structural, Debug)]
pub enum Error {
    TemperatureReading,
}

/// The high register byte read as a two's-complement signed integer part.
pub open spec fn sign_extended(high: u8) -> int {
    if high >= 128 {
        high - 256
    } else {
        high as int
    }
}

/// The number of 0.125-degree steps held in the top three bits of the low
/// register byte.
pub open spec fn fraction_steps(low: u8) -> u8 {
    (low & FRACTION_MASK) >> 5
}

/// A register pair as milli-degrees Celsius: sign-extended integer part plus
/// 125 per fraction step.
pub open spec fn temp_milli_celsius(high: u8, low: u8) -> int {
    sign_extended(high) * 1000 + fraction_steps(low) * MILLI_PER_STEP
}

/// Interprets frames of the two-wire temperature sensor at a fixed bus
/// address.  The hardware handle stays outside the library; this type holds
/// the address and the conversion logic.
pub struct Lm75Reader {
    address: u8,
}

impl Lm75Reader {
    /// The bus address this reader was configured with.
    pub closed spec fn spec_address(&self) -> u8 {
        self.address
    }

    pub fn new(address: u8) -> (r: Lm75Reader)
        ensures
            r.spec_address() == address,
    {
        Lm75Reader { address }
    }

    /// The address to direct the bus transaction at.
    pub fn address(&self) -> (a: u8)
        ensures
            a == self.spec_address(),
    {
        self.address
    }

    /// Exact conversion of a register pair to milli-degrees Celsius.
    pub fn convert_temp_from_register(data: &[u8; 2]) -> (milli: i32)
        ensures
            milli == temp_milli_celsius(data[0], data[1]),
            -128_000 <= milli <= 127_875,
    {
        let high: u8 = data[0];
        let low: u8 = data[1];
        let steps: u8 = (low & FRACTION_MASK) >> 5;
        proof {
            assert((low & FRACTION_MASK) >> 5 <= 7) by (bit_vector);
        }
        let integer_part: i32 = if high >= 128 {
            high as i32 - 256
        } else {
            high as i32
        };
        integer_part * 1000 + (steps as i32) * MILLI_PER_STEP
    }

    /// Interpretation of one acquisition attempt: a register pair becomes an
    /// exact milli-degree value, a failed read stays a failure.
    pub fn read_temperature(&self, frame: Result<[u8; 2], Error>) -> (r: Result<i32, Error>)
        ensures
            frame matches Ok(data) ==> r == Ok::<i32, Error>(temp_milli_celsius(data[0], data[1]) as i32),
            frame matches Err(e) ==> r == Err::<i32, Error>(e),
    {
        match frame {
            Ok(data) => Ok(Self::convert_temp_from_register(&data)),
            Err(e) => Err(e),
        }
    }
}

} // verus!
