//! Task step logic: samplers, exporter serialization, display updates, the
//! watchdog schedule.

use voltage_meter::adc::AdcReader;
use voltage_meter::channel::MetricsChannel;
use voltage_meter::config::AdcConfig;
use voltage_meter::display::{display_step, format_value, DisplayField};
use voltage_meter::error::AcquisitionError;
use voltage_meter::metrics::{AmbientTemperature, Metrics, MetricsExporter, VoltageFeedback};
use voltage_meter::sampler::{temperature_sampler_step, voltage_sampler_step};
use voltage_meter::watchdog::{next_feed_deadline, WatchdogConfig};

fn line_of(m: &Metrics) -> String {
    String::from_utf8(m.to_line()).unwrap()
}

#[test]
fn temperature_tick_publishes_exact_reading() {
    let m = temperature_sampler_step(Ok([0x17, 0x80]), 184_320);
    assert_eq!(
        m,
        Some(Metrics::AmbientTemperature(AmbientTemperature {
            timestamp_ms: 184_320,
            milli_celsius: 23_500,
        }))
    );
}

#[test]
fn voltage_tick_publishes_exact_reading() {
    let reader = AdcReader::new(AdcConfig::divider_ratio());
    let m = voltage_sampler_step(&reader, Ok(1000), 42);
    assert_eq!(
        m,
        Some(Metrics::VoltageFeedback(VoltageFeedback {
            timestamp_ms: 42,
            millivolts: 13_000,
        }))
    );
}

#[test]
fn failed_tick_publishes_nothing_and_task_goes_on() {
    // an injected acquisition error yields no reading for that tick, and
    // the very next tick converts as if nothing happened
    let first = temperature_sampler_step(Err(AcquisitionError::TemperatureReading), 100);
    assert_eq!(first, None);
    let second = temperature_sampler_step(Ok([0xFF, 0x00]), 200);
    assert_eq!(
        second,
        Some(Metrics::AmbientTemperature(AmbientTemperature {
            timestamp_ms: 200,
            milli_celsius: -1_000,
        }))
    );

    let reader = AdcReader::new(AdcConfig::divider_ratio());
    assert_eq!(
        voltage_sampler_step(&reader, Err(AcquisitionError::VoltageReading), 100),
        None
    );
    assert!(voltage_sampler_step(&reader, Ok(1), 101).is_some());
}

#[test]
fn error_storm_leaves_channel_and_watchdog_alone() {
    // an acquisition-error storm on every sampler: nothing reaches the
    // channel, and the watchdog schedule is computed from time alone
    let mut c = MetricsChannel::new(4, 2, 1);
    let s = c.subscribe().unwrap();
    let p = c.publisher().unwrap();
    let reader = AdcReader::new(AdcConfig::divider_ratio());
    let mut deadlines = Vec::new();
    for tick in 0..10u64 {
        let now = tick * 250;
        if let Some(m) = temperature_sampler_step(Err(AcquisitionError::TemperatureReading), now) {
            c.publish(&p, m);
        }
        if let Some(m) = voltage_sampler_step(&reader, Err(AcquisitionError::VoltageReading), now) {
            c.publish(&p, m);
        }
        deadlines.push(next_feed_deadline(now));
    }
    assert_eq!(c.next(&s), None);
    let expected: Vec<u64> = (0..10u64).map(|t| t * 250 + 500).collect();
    assert_eq!(deadlines, expected);
}

#[test]
fn exporter_line_for_temperature() {
    let m = AmbientTemperature::build(23_500, 184_320);
    assert_eq!(line_of(&m), "ambient_temperature{unit=\"C\"} 23.500 184320");
}

#[test]
fn exporter_line_for_negative_temperature() {
    let m = AmbientTemperature::build(-1_000, 7);
    assert_eq!(line_of(&m), "ambient_temperature{unit=\"C\"} -1.000 7");
    let m = AmbientTemperature::build(-500, 8);
    assert_eq!(line_of(&m), "ambient_temperature{unit=\"C\"} -0.500 8");
}

#[test]
fn exporter_line_for_voltage() {
    let m = VoltageFeedback::build(13_000, 42);
    assert_eq!(line_of(&m), "voltage_feedback{unit=\"V\"} 13.000 42");
    let m = VoltageFeedback::build(1, 0);
    assert_eq!(line_of(&m), "voltage_feedback{unit=\"V\"} 0.001 0");
}

#[test]
fn exporter_step_serializes_each_drained_reading() {
    let mut c = MetricsChannel::new(4, 1, 1);
    let sub = c.subscribe().unwrap();
    let p = c.publisher().unwrap();
    let e = MetricsExporter::new(sub);
    assert!(c.publish(&p, AmbientTemperature::build(23_500, 184_320)));
    let drained = c.next(e.subscriber());
    let line = e.export_step(drained).unwrap();
    assert_eq!(
        String::from_utf8(line).unwrap(),
        "ambient_temperature{unit=\"C\"} 23.500 184320"
    );
    let empty = c.next(e.subscriber());
    assert_eq!(e.export_step(empty), None);
}

#[test]
fn display_routes_kinds_to_fields() {
    let v = VoltageFeedback::build(13_000, 0);
    let u = display_step(&v);
    assert_eq!(u.field, DisplayField::Voltage);
    assert_eq!(String::from_utf8(u.text).unwrap(), "13.00");

    let t = AmbientTemperature::build(3_500, 0);
    let u = display_step(&t);
    assert_eq!(u.field, DisplayField::Temperature);
    assert_eq!(String::from_utf8(u.text).unwrap(), " 3.50");
}

#[test]
fn display_value_rendering() {
    // two fraction digits, rounded half away from zero, five columns
    assert_eq!(String::from_utf8(format_value(false, 13_456)).unwrap(), "13.46");
    assert_eq!(String::from_utf8(format_value(false, 13_454)).unwrap(), "13.45");
    assert_eq!(String::from_utf8(format_value(false, 13_455)).unwrap(), "13.46");
    assert_eq!(String::from_utf8(format_value(false, 0)).unwrap(), " 0.00");
    assert_eq!(String::from_utf8(format_value(true, 1_000)).unwrap(), "-1.00");
    // wider than the field: nothing is cut
    assert_eq!(String::from_utf8(format_value(false, 123_456)).unwrap(), "123.46");
}

#[test]
fn display_negative_temperature() {
    let t = AmbientTemperature::build(-1_000, 0);
    let u = display_step(&t);
    assert_eq!(u.field, DisplayField::Temperature);
    assert_eq!(String::from_utf8(u.text).unwrap(), "-1.00");
}

#[test]
fn exporter_line_extremes() {
    let m = VoltageFeedback::build(u64::MAX, u64::MAX);
    assert_eq!(
        line_of(&m),
        format!(
            "voltage_feedback{{unit=\"V\"}} {}.{:03} {}",
            u64::MAX / 1000,
            u64::MAX % 1000,
            u64::MAX
        )
    );
}

#[test]
fn display_value_near_range_end() {
    let text = format_value(false, u64::MAX - 5);
    let centi = u64::MAX / 10;
    assert_eq!(
        String::from_utf8(text).unwrap(),
        format!("{}.{:02}", centi / 100, centi % 100)
    );
}

#[test]
fn watchdog_period_inside_timeout() {
    assert!(WatchdogConfig::FEED_PERIOD_MS < WatchdogConfig::TIMEOUT_MS);
    let d = next_feed_deadline(1_000);
    assert_eq!(d, 1_000 + WatchdogConfig::FEED_PERIOD_MS);
    assert!(d < 1_000 + WatchdogConfig::TIMEOUT_MS);
}
