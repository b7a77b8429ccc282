//! Readings and the telemetry exporter.
//!
//! A reading is an immutable tagged value: one sampled quantity together with
//! the monotonic millisecond timestamp captured at acquisition time (not at
//! publish time).  Readings have no identity beyond value equality and are
//! cheaply copyable.  The closed set of kinds is an explicit sum type; adding
//! a kind is a closed-set change.

use vstd::prelude::*;

use crate::channel::MetricsSubscriber;
use crate::textfmt::{spec_decimal, spec_milli, spec_milli_signed, SPACE};
use crate::textfmt::{push_decimal, push_milli, push_milli_signed};

verus! {

/// An ambient-temperature reading, in milli-degrees Celsius.
#[derive(Clone, Copy, PartialEq, Eq, Structural, Debug)]
pub struct AmbientTemperature {
    /// Monotonic milliseconds at acquisition time.
    pub timestamp_ms: u64,
    /// Temperature in milli-degrees Celsius.
    pub milli_celsius: i32,
}

/// A line-voltage reading, in millivolts at the divider input.
#[derive(Clone, Copy, PartialEq, Eq, Structural, Debug)]
pub struct VoltageFeedback {
    /// Monotonic milliseconds at acquisition time.
    pub timestamp_ms: u64,
    /// Voltage in millivolts.
    pub millivolts: u64,
}

/// One timestamped sensor reading: the tagged union over all metric kinds.
#[derive(Clone, Copy, PartialEq, Eq, Structural, Debug)]
pub enum Metrics {
    AmbientTemperature(AmbientTemperature),
    VoltageFeedback(VoltageFeedback),
}

impl AmbientTemperature {
    /// Wraps a converted temperature and its acquisition timestamp as a
    /// reading.
    pub fn build(milli_celsius: i32, timestamp_ms: u64) -> (m: Metrics)
        ensures
            m == Metrics::AmbientTemperature(
                AmbientTemperature { timestamp_ms, milli_celsius },
            ),
    {
        Metrics::AmbientTemperature(AmbientTemperature { timestamp_ms, milli_celsius })
    }
}

impl VoltageFeedback {
    /// Wraps a scaled voltage and its acquisition timestamp as a reading.
    pub fn build(millivolts: u64, timestamp_ms: u64) -> (m: Metrics)
        ensures
            m == Metrics::VoltageFeedback(VoltageFeedback { timestamp_ms, millivolts }),
    {
        Metrics::VoltageFeedback(VoltageFeedback { timestamp_ms, millivolts })
    }
}

/// Metric name and unit of a temperature reading, as the start of its
/// exposition line: `ambient_temperature{unit="C"} `.
pub open spec fn temperature_line_prefix() -> Seq<u8> {
    seq![
        97, 109, 98, 105, 101, 110, 116, 95, 116, 101, 109, 112, 101, 114,
        97, 116, 117, 114, 101, 123, 117, 110, 105, 116, 61, 34, 67, 34,
        125, 32,
    ]
}

/// Metric name and unit of a voltage reading, as the start of its
/// exposition line: `voltage_feedback{unit="V"} `.
pub open spec fn voltage_line_prefix() -> Seq<u8> {
    seq![
        118, 111, 108, 116, 97, 103, 101, 95, 102, 101, 101, 100, 98, 97,
        99, 107, 123, 117, 110, 105, 116, 61, 34, 86, 34, 125, 32,
    ]
}

/// The single-sample exposition line of a reading:
/// `<metric_name>{unit="<unit>"} <value> <timestamp_ms>`, the value with
/// exactly three fraction digits.
pub open spec fn spec_line(m: Metrics) -> Seq<u8> {
    match m {
        Metrics::AmbientTemperature(t) => temperature_line_prefix() + spec_milli_signed(
            t.milli_celsius as int,
        ) + seq![SPACE] + spec_decimal(t.timestamp_ms as nat),
        Metrics::VoltageFeedback(v) => voltage_line_prefix() + spec_milli(
            false,
            v.millivolts as nat,
        ) + seq![SPACE] + spec_decimal(v.timestamp_ms as nat),
    }
}

fn push_temperature_line_prefix(out: &mut Vec<u8>)
    ensures
        final(out)@ == old(out)@ + temperature_line_prefix(),
{
    out.push(97);
    out.push(109);
    out.push(98);
    out.push(105);
    out.push(101);
    out.push(110);
    out.push(116);
    out.push(95);
    out.push(116);
    out.push(101);
    out.push(109);
    out.push(112);
    out.push(101);
    out.push(114);
    out.push(97);
    out.push(116);
    out.push(117);
    out.push(114);
    out.push(101);
    out.push(123);
    out.push(117);
    out.push(110);
    out.push(105);
    out.push(116);
    out.push(61);
    out.push(34);
    out.push(67);
    out.push(34);
    out.push(125);
    out.push(32);
    proof {
        assert(final(out)@ =~= old(out)@ + temperature_line_prefix());
    }
}

fn push_voltage_line_prefix(out: &mut Vec<u8>)
    ensures
        final(out)@ == old(out)@ + voltage_line_prefix(),
{
    out.push(118);
    out.push(111);
    out.push(108);
    out.push(116);
    out.push(97);
    out.push(103);
    out.push(101);
    out.push(95);
    out.push(102);
    out.push(101);
    out.push(101);
    out.push(100);
    out.push(98);
    out.push(97);
    out.push(99);
    out.push(107);
    out.push(123);
    out.push(117);
    out.push(110);
    out.push(105);
    out.push(116);
    out.push(61);
    out.push(34);
    out.push(86);
    out.push(34);
    out.push(125);
    out.push(32);
    proof {
        assert(final(out)@ =~= old(out)@ + voltage_line_prefix());
    }
}

impl Metrics {
    /// Serializes the reading as its exposition line, exactly [`spec_line`].
    pub fn to_line(&self) -> (line: Vec<u8>)
        ensures
            line@ == spec_line(*self),
    {
        let mut line: Vec<u8> = Vec::new();
        match self {
            Metrics::AmbientTemperature(t) => {
                push_temperature_line_prefix(&mut line);
                push_milli_signed(&mut line, t.milli_celsius as i64);
                line.push(SPACE);
                push_decimal(&mut line, t.timestamp_ms);
            },
            Metrics::VoltageFeedback(v) => {
                push_voltage_line_prefix(&mut line);
                push_milli(&mut line, false, v.millivolts);
                line.push(SPACE);
                push_decimal(&mut line, v.timestamp_ms);
            },
        }
        proof {
            assert(line@ =~= spec_line(*self));
        }
        line
    }
}

/// The telemetry exporter: drains one subscriber queue and serializes each
/// reading to a line-oriented text sink.  The sink itself lives outside the
/// library; the exporter owns the subscriber handle and the serialization.
pub struct MetricsExporter {
    metrics_subscriber: MetricsSubscriber,
}

impl View for MetricsExporter {
    type V = nat;

    closed spec fn view(&self) -> nat {
        self.metrics_subscriber@
    }
}

impl MetricsExporter {
    /// An exporter bound to one subscriber queue.
    pub fn new(metrics_subscriber: MetricsSubscriber) -> (e: MetricsExporter)
        ensures
            e@ == metrics_subscriber@,
    {
        MetricsExporter { metrics_subscriber }
    }

    /// The subscriber handle, for draining the channel.
    pub fn subscriber(&self) -> (s: &MetricsSubscriber)
        ensures
            s@ == self@,
    {
        &self.metrics_subscriber
    }

    /// The per-reading decision of the exporter loop: each drained reading
    /// becomes its exposition line; an empty poll writes nothing.
    pub fn export_step(&self, drained: Option<Metrics>) -> (line: Option<Vec<u8>>)
        ensures
            drained matches Some(m) ==> line matches Some(l) && l@ == spec_line(m),
            drained is None ==> line is None,
    {
        match drained {
            Some(m) => Some(m.to_line()),
            None => None,
        }
    }
}

} // verus!
