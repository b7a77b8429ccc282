//! Display consumer: per-reading update decisions.
//!
//! The display shows one on-screen field per reading kind.  The consumer
//! loop drains its subscriber queue and, for each reading, decides which
//! field to touch and what text to put there.  That decision is the verified
//! part; the pixel driver that carries it out lives outside the library and
//! may fail without stopping the consumer.
//!
//! A value is rendered with two fraction digits, rounded half away from
//! zero, right-aligned in a five-column field.

use vstd::prelude::*;

use crate::metrics::Metrics;
use crate::textfmt::{push_centi, push_spaces, spec_centi, spec_padded};

verus! {

/// Width of a rendered value on the display, in columns.
pub const VALUE_WIDTH: usize = 5;

/// The on-screen field a reading kind is bound to.
#[derive(Clone, Copy, PartialEq, Eq, Structural, Debug)]
pub enum DisplayField {
    Voltage,
    Temperature,
}

/// One decided display update: the field to touch and the text to put
/// there.
pub struct DisplayUpdate {
    pub field: DisplayField,
    pub text: Vec<u8>,
}

/// A milli-unit magnitude rounded half away from zero to centi-units.
pub open spec fn round_to_centi(magnitude_milli: nat) -> nat {
    (magnitude_milli + 5) / 10
}

/// The display text of a value given as sign and milli-unit magnitude: two
/// fraction digits, right-aligned in a five-column field.
pub open spec fn spec_value_text(negative: bool, magnitude_milli: nat) -> Seq<u8> {
    spec_padded(spec_centi(negative, round_to_centi(magnitude_milli)), VALUE_WIDTH as nat)
}

/// Renders one value for the display, exactly [`spec_value_text`].
pub fn format_value(negative: bool, magnitude_milli: u64) -> (text: Vec<u8>)
    requires
        magnitude_milli + 5 <= u64::MAX,
    ensures
        text@ == spec_value_text(negative, magnitude_milli as nat),
{
    let centi: u64 = (magnitude_milli + 5) / 10;
    let mut rendered: Vec<u8> = Vec::new();
    push_centi(&mut rendered, negative, centi);
    if rendered.len() < VALUE_WIDTH {
        let mut padded: Vec<u8> = Vec::new();
        push_spaces(&mut padded, VALUE_WIDTH - rendered.len());
        padded.append(&mut rendered);
        proof {
            assert(padded@ =~= spec_value_text(negative, magnitude_milli as nat));
        }
        padded
    } else {
        rendered
    }
}

/// The per-reading decision of the display loop: a voltage reading updates
/// the voltage field with the volts rendered from its millivolts, a
/// temperature reading updates the temperature field with the degrees
/// rendered from its milli-degrees.
pub fn display_step(m: &Metrics) -> (u: DisplayUpdate)
    requires
        m matches Metrics::VoltageFeedback(v) ==> v.millivolts + 5 <= u64::MAX,
    ensures
        m matches Metrics::VoltageFeedback(v) ==> {
            &&& u.field == DisplayField::Voltage
            &&& u.text@ == spec_value_text(false, v.millivolts as nat)
        },
        m matches Metrics::AmbientTemperature(t) ==> {
            &&& u.field == DisplayField::Temperature
            &&& u.text@ == spec_value_text(
                t.milli_celsius < 0,
                (if t.milli_celsius < 0 {
                    -(t.milli_celsius as int)
                } else {
                    t.milli_celsius as int
                }) as nat,
            )
        },
{
    match m {
        Metrics::VoltageFeedback(v) => DisplayUpdate {
            field: DisplayField::Voltage,
            text: format_value(false, v.millivolts),
        },
        Metrics::AmbientTemperature(t) => {
            let milli: i64 = t.milli_celsius as i64;
            let negative = milli < 0;
            let magnitude: u64 = if milli < 0 {
                (-milli) as u64
            } else {
                milli as u64
            };
            DisplayUpdate { field: DisplayField::Temperature, text: format_value(negative, magnitude) }
        },
    }
}

} // verus!
