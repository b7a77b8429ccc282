//! Channel semantics: ordering, back-pressure, isolation, capability pools.

use voltage_meter::channel::{
    MetricsChannel, METRICS_CHANNEL_SIZE, NUM_PUBLISHERS, NUM_SUBSCRIBERS,
};
use voltage_meter::error::CapabilityExhausted;
use voltage_meter::metrics::{AmbientTemperature, Metrics, VoltageFeedback};

fn temp(n: i32) -> Metrics {
    AmbientTemperature::build(n, n as u64)
}

#[test]
fn fifo_per_edge() {
    // one publisher issues r1, r2, r3; every subscriber observes exactly
    // that order
    let mut c = MetricsChannel::new(METRICS_CHANNEL_SIZE, NUM_PUBLISHERS, NUM_SUBSCRIBERS);
    let a = c.subscribe().unwrap();
    let b = c.subscribe().unwrap();
    let p = c.publisher().unwrap();
    let readings = [temp(1), temp(2), temp(3)];
    for r in readings {
        assert!(c.publish(&p, r));
    }
    for r in readings {
        assert_eq!(c.next(&a), Some(r));
    }
    for r in readings {
        assert_eq!(c.next(&b), Some(r));
    }
    assert_eq!(c.next(&a), None);
    assert_eq!(c.next(&b), None);
}

#[test]
fn fifo_across_publishers_keeps_per_publisher_order() {
    // interleaved publishers: each publisher's own stream stays in order
    let mut c = MetricsChannel::new(METRICS_CHANNEL_SIZE, NUM_PUBLISHERS, NUM_SUBSCRIBERS);
    let a = c.subscribe().unwrap();
    let p1 = c.publisher().unwrap();
    let p2 = c.publisher().unwrap();
    assert!(c.publish(&p1, temp(10)));
    assert!(c.publish(&p2, temp(20)));
    assert!(c.publish(&p1, temp(11)));
    assert!(c.publish(&p2, temp(21)));
    let drained: Vec<Metrics> = std::iter::from_fn(|| c.next(&a)).collect();
    let ones: Vec<Metrics> = drained
        .iter()
        .copied()
        .filter(|m| matches!(m, Metrics::AmbientTemperature(t) if t.milli_celsius < 20))
        .collect();
    let twos: Vec<Metrics> = drained
        .iter()
        .copied()
        .filter(|m| matches!(m, Metrics::AmbientTemperature(t) if t.milli_celsius >= 20))
        .collect();
    assert_eq!(ones, vec![temp(10), temp(11)]);
    assert_eq!(twos, vec![temp(20), temp(21)]);
}

#[test]
fn idle_subscriber_isolation_and_backpressure() {
    // a subscriber that never drains lets the others advance until its own
    // queue fills, then suspends publishing
    let mut c = MetricsChannel::new(3, 1, 2);
    let active = c.subscribe().unwrap();
    let _idle = c.subscribe().unwrap();
    let p = c.publisher().unwrap();
    for n in 0..3 {
        assert!(c.publish(&p, temp(n)));
        // the active subscriber keeps receiving although the idle one
        // never calls next
        assert_eq!(c.next(&active), Some(temp(n)));
    }
    // the idle subscriber's queue is full now: delivery must wait
    assert!(!c.publish(&p, temp(99)));
    // and the refused publish changed nothing for the active subscriber
    assert_eq!(c.next(&active), None);
}

#[test]
fn subscriber_pool_exhaustion() {
    // one more subscribe than configured fails deterministically and does
    // not corrupt already-issued handles
    let mut c = MetricsChannel::new(METRICS_CHANNEL_SIZE, NUM_PUBLISHERS, NUM_SUBSCRIBERS);
    let a = c.subscribe().unwrap();
    let b = c.subscribe().unwrap();
    let p = c.publisher().unwrap();
    assert!(c.publish(&p, temp(7)));
    assert!(matches!(c.subscribe(), Err(CapabilityExhausted)));
    assert!(matches!(c.subscribe(), Err(CapabilityExhausted)));
    // the earlier handles still drain their queues as before
    assert_eq!(c.next(&a), Some(temp(7)));
    assert_eq!(c.next(&b), Some(temp(7)));
}

#[test]
fn publisher_pool_exhaustion() {
    let mut c = MetricsChannel::new(METRICS_CHANNEL_SIZE, NUM_PUBLISHERS, NUM_SUBSCRIBERS);
    let _p1 = c.publisher().unwrap();
    let _p2 = c.publisher().unwrap();
    assert!(matches!(c.publisher(), Err(CapabilityExhausted)));
}

#[test]
fn late_subscriber_misses_earlier_readings() {
    // a reading published before a subscriber registered is not replayed
    let mut c = MetricsChannel::new(METRICS_CHANNEL_SIZE, NUM_PUBLISHERS, NUM_SUBSCRIBERS);
    let early = c.subscribe().unwrap();
    let p = c.publisher().unwrap();
    assert!(c.publish(&p, temp(1)));
    let late = c.subscribe().unwrap();
    assert!(c.publish(&p, temp(2)));
    assert_eq!(c.next(&early), Some(temp(1)));
    assert_eq!(c.next(&early), Some(temp(2)));
    assert_eq!(c.next(&late), Some(temp(2)));
    assert_eq!(c.next(&late), None);
}

#[test]
fn publish_with_no_subscribers_delivers_nowhere() {
    let mut c = MetricsChannel::new(METRICS_CHANNEL_SIZE, NUM_PUBLISHERS, NUM_SUBSCRIBERS);
    let p = c.publisher().unwrap();
    // vacuously deliverable: every (zero) queue has room
    assert!(c.publish(&p, temp(1)));
    let s = c.subscribe().unwrap();
    assert_eq!(c.next(&s), None);
}

#[test]
fn lossy_publish_drops_oldest_where_full() {
    let mut c = MetricsChannel::new(2, 1, 2);
    let a = c.subscribe().unwrap();
    let b = c.subscribe().unwrap();
    let p = c.publisher().unwrap();
    assert!(c.publish(&p, temp(1)));
    assert_eq!(c.next(&a), Some(temp(1)));
    assert!(c.publish(&p, temp(2)));
    // b's queue is now full with [1, 2]; a holds [2]
    c.publish_immediate(&p, temp(3));
    // a had room and keeps everything; b lost its oldest
    assert_eq!(c.next(&a), Some(temp(2)));
    assert_eq!(c.next(&a), Some(temp(3)));
    assert_eq!(c.next(&b), Some(temp(2)));
    assert_eq!(c.next(&b), Some(temp(3)));
    assert_eq!(c.next(&b), None);
}

#[test]
fn mixed_kinds_share_one_channel() {
    let mut c = MetricsChannel::new(METRICS_CHANNEL_SIZE, NUM_PUBLISHERS, NUM_SUBSCRIBERS);
    let s = c.subscribe().unwrap();
    let p = c.publisher().unwrap();
    let v = VoltageFeedback::build(13_000, 5);
    let t = AmbientTemperature::build(23_500, 6);
    assert!(c.publish(&p, v));
    assert!(c.publish(&p, t));
    assert_eq!(c.next(&s), Some(v));
    assert_eq!(c.next(&s), Some(t));
}
