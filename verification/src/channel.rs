//! The telemetry channel: a bounded multi-producer/multi-consumer broadcast
//! bus.
//!
//! The channel owns one bounded first-in-first-out queue per registered
//! subscriber.  Publishing delivers a reading to the tail of every queue at
//! once, but only when every queue has room: with any queue full the
//! publisher is told to wait, so delivery is loss-free and a slow consumer
//! back-pressures publishers instead of dropping data.  Draining one queue
//! never touches another, so consumers pace themselves independently.
//!
//! Handles come from fixed pools sized at construction; running out of
//! handles is a startup configuration fault, not a runtime one.
//!
//! The methods here are the decision half of the suspension points of the
//! cooperative tasks: `publish` reports "would wait" instead of suspending,
//! and `next` reports an empty queue instead of suspending.  The caller owns
//! the actual waiting.

use vstd::prelude::*;

use crate::error::CapabilityExhausted;
use crate::metrics::Metrics;

verus! {

/// Channel depth: the capacity of each subscriber queue.
pub const METRICS_CHANNEL_SIZE: usize = 10;

/// Size of the fixed subscriber-handle pool.
pub const NUM_SUBSCRIBERS: usize = 2;

/// Size of the fixed publisher-handle pool.
pub const NUM_PUBLISHERS: usize = 2;

/// Mathematical state of a channel: the per-subscriber queues (one sequence
/// per issued subscriber handle, oldest reading first), the number of issued
/// publisher handles, and the fixed configuration.
#[verifier::ext_equal]
pub struct ChannelModel {
    /// Capacity of each subscriber queue.
    pub capacity: nat,
    /// Size of the publisher-handle pool.
    pub publisher_slots: nat,
    /// Size of the subscriber-handle pool.
    pub subscriber_slots: nat,
    /// Publisher handles issued so far.
    pub publishers: nat,
    /// One queue per issued subscriber handle; index `i` belongs to the
    /// subscriber issued `i`-th.
    pub queues: Seq<Seq<Metrics>>,
}

impl ChannelModel {
    /// Structural well-formedness: pools respected and every queue bounded.
    pub open spec fn wf(self) -> bool {
        &&& 0 < self.capacity
        &&& self.queues.len() <= self.subscriber_slots
        &&& self.publishers <= self.publisher_slots
        &&& forall|i: int|
            0 <= i < self.queues.len() ==> (#[trigger] self.queues[i]).len() <= self.capacity
    }

    /// Delivery is possible exactly when every subscriber queue has room.
    pub open spec fn can_publish(self) -> bool {
        forall|i: int|
            0 <= i < self.queues.len() ==> (#[trigger] self.queues[i]).len() < self.capacity
    }

    /// The state after one reading is appended to the tail of every queue.
    pub open spec fn publish_to_all(self, m: Metrics) -> ChannelModel {
        ChannelModel {
            queues: Seq::new(self.queues.len(), |i: int| self.queues[i].push(m)),
            ..self
        }
    }

    /// The state after a lossy delivery: the reading lands at the tail of
    /// every queue, displacing the oldest reading of each queue that was
    /// full.
    pub open spec fn publish_immediate_to_all(self, m: Metrics) -> ChannelModel {
        ChannelModel {
            queues: Seq::new(
                self.queues.len(),
                |i: int|
                    if self.queues[i].len() < self.capacity {
                        self.queues[i].push(m)
                    } else {
                        self.queues[i].drop_first().push(m)
                    },
            ),
            ..self
        }
    }

    /// The state after subscriber `i` removed the head of its queue.
    pub open spec fn pop_at(self, i: int) -> ChannelModel {
        ChannelModel { queues: self.queues.update(i, self.queues[i].drop_first()), ..self }
    }

    /// The state after one more subscriber registered, with an empty queue.
    pub open spec fn with_new_subscriber(self) -> ChannelModel {
        ChannelModel { queues: self.queues.push(Seq::empty()), ..self }
    }

    /// The state after one more publisher handle was issued.
    pub open spec fn with_new_publisher(self) -> ChannelModel {
        ChannelModel { publishers: self.publishers + 1, ..self }
    }
}

/// Exclusive capability to enqueue readings into the channel.  The view is
/// the handle's issue index.
pub struct MetricsPublisher {
    id: usize,
}

impl View for MetricsPublisher {
    type V = nat;

    closed spec fn view(&self) -> nat {
        self.id as nat
    }
}

/// Exclusive capability to dequeue from one subscriber queue.  The view is
/// the index of the queue the handle is bound to.
pub struct MetricsSubscriber {
    id: usize,
}

impl View for MetricsSubscriber {
    type V = nat;

    closed spec fn view(&self) -> nat {
        self.id as nat
    }
}

/// The broadcast channel.  Its view is a [`ChannelModel`].
pub struct MetricsChannel {
    capacity: usize,
    publisher_slots: usize,
    subscriber_slots: usize,
    publishers_issued: usize,
    queues: Vec<Vec<Metrics>>,
}

impl View for MetricsChannel {
    type V = ChannelModel;

    closed spec fn view(&self) -> ChannelModel {
        ChannelModel {
            capacity: self.capacity as nat,
            publisher_slots: self.publisher_slots as nat,
            subscriber_slots: self.subscriber_slots as nat,
            publishers: self.publishers_issued as nat,
            queues: self.queues@.map_values(|q: Vec<Metrics>| q@),
        }
    }
}

impl MetricsChannel {
    /// An empty channel: no handles issued, no queues yet.
    pub fn new(capacity: usize, publisher_slots: usize, subscriber_slots: usize) -> (c:
        MetricsChannel)
        requires
            0 < capacity,
        ensures
            c@.capacity == capacity,
            c@.publisher_slots == publisher_slots,
            c@.subscriber_slots == subscriber_slots,
            c@.publishers == 0,
            c@.queues == Seq::<Seq<Metrics>>::empty(),
            c@.wf(),
    {
        let c = MetricsChannel {
            capacity,
            publisher_slots,
            subscriber_slots,
            publishers_issued: 0,
            queues: Vec::new(),
        };
        proof {
            assert(c@.queues =~= Seq::<Seq<Metrics>>::empty());
        }
        c
    }

    /// Issues a publisher handle from the fixed pool, or reports the pool
    /// exhausted, leaving the channel untouched.
    pub fn publisher(&mut self) -> (r: Result<MetricsPublisher, CapabilityExhausted>)
        requires
            old(self)@.wf(),
        ensures
            final(self)@.wf(),
            old(self)@.publishers < old(self)@.publisher_slots ==> {
                &&& r matches Ok(p) && p@ == old(self)@.publishers
                &&& final(self)@ == old(self)@.with_new_publisher()
            },
            old(self)@.publishers >= old(self)@.publisher_slots ==> {
                &&& r == Err::<MetricsPublisher, CapabilityExhausted>(CapabilityExhausted)
                &&& final(self)@ == old(self)@
            },
    {
        if self.publishers_issued < self.publisher_slots {
            let id = self.publishers_issued;
            self.publishers_issued = self.publishers_issued + 1;
            proof {
                assert(self@ =~= old(self)@.with_new_publisher());
            }
            Ok(MetricsPublisher { id })
        } else {
            Err(CapabilityExhausted)
        }
    }

    /// Registers a subscriber: binds a fresh empty queue and hands out the
    /// handle to it, or reports the pool exhausted, leaving the channel — and
    /// thereby every already-issued handle's queue — untouched.
    pub fn subscribe(&mut self) -> (r: Result<MetricsSubscriber, CapabilityExhausted>)
        requires
            old(self)@.wf(),
        ensures
            final(self)@.wf(),
            old(self)@.queues.len() < old(self)@.subscriber_slots ==> {
                &&& r matches Ok(s) && s@ == old(self)@.queues.len()
                &&& final(self)@ == old(self)@.with_new_subscriber()
            },
            old(self)@.queues.len() >= old(self)@.subscriber_slots ==> {
                &&& r == Err::<MetricsSubscriber, CapabilityExhausted>(CapabilityExhausted)
                &&& final(self)@ == old(self)@
            },
    {
        if self.queues.len() < self.subscriber_slots {
            let id = self.queues.len();
            self.queues.push(Vec::new());
            proof {
                assert(self@.queues =~= old(self)@.queues.push(Seq::empty()));
                assert(self@ =~= old(self)@.with_new_subscriber());
            }
            Ok(MetricsSubscriber { id })
        } else {
            Err(CapabilityExhausted)
        }
    }

    /// True exactly when every subscriber queue has room for one more
    /// reading.
    fn all_have_room(&self) -> (b: bool)
        ensures
            b == self@.can_publish(),
    {
        let mut i: usize = 0;
        while i < self.queues.len()
            invariant
                i <= self.queues.len(),
                forall|j: int| 0 <= j < i ==> (#[trigger] self@.queues[j]).len() < self@.capacity,
            decreases self.queues.len() - i,
        {
            if self.queues[i].len() >= self.capacity {
                assert(self@.queues[i as int].len() >= self@.capacity);
                return false;
            }
            i = i + 1;
        }
        true
    }

    /// Loss-free delivery attempt: when every subscriber queue has room, the
    /// reading lands at the tail of every queue and `true` comes back; with
    /// any queue full, nothing changes and `false` tells the publisher to
    /// wait and retry.  Guaranteed delivery is the only mode the samplers
    /// use.
    pub fn publish(&mut self, publisher: &MetricsPublisher, m: Metrics) -> (delivered: bool)
        requires
            old(self)@.wf(),
        ensures
            final(self)@.wf(),
            delivered == old(self)@.can_publish(),
            delivered ==> final(self)@ == old(self)@.publish_to_all(m),
            !delivered ==> final(self)@ == old(self)@,
    {
        if !self.all_have_room() {
            return false;
        }
        let mut i: usize = 0;
        while i < self.queues.len()
            invariant
                old(self)@.wf(),
                old(self)@.can_publish(),
                i <= self.queues.len(),
                self.capacity == old(self).capacity,
                self.publisher_slots == old(self).publisher_slots,
                self.subscriber_slots == old(self).subscriber_slots,
                self.publishers_issued == old(self).publishers_issued,
                self@.queues.len() == old(self)@.queues.len(),
                forall|j: int|
                    0 <= j < i ==> #[trigger] self@.queues[j] == old(self)@.queues[j].push(m),
                forall|j: int|
                    i <= j < self@.queues.len() ==> #[trigger] self@.queues[j] == old(
                        self,
                    )@.queues[j],
            decreases self.queues.len() - i,
        {
            let ghost prev = self@.queues;
            self.queues[i].push(m);
            proof {
                assert(self@.queues =~= prev.update(i as int, prev[i as int].push(m)));
            }
            i = i + 1;
        }
        proof {
            assert(self@ =~= old(self)@.publish_to_all(m)) by {
                assert(self@.queues =~= old(self)@.publish_to_all(m).queues);
            }
        }
        true
    }

    /// Lossy delivery, never waiting: the reading lands at the tail of
    /// every queue at once, and each queue that was full loses its oldest
    /// reading to make room.  Exposed alongside the loss-free mode; the
    /// samplers of this system use only the loss-free one.
    pub fn publish_immediate(&mut self, publisher: &MetricsPublisher, m: Metrics)
        requires
            old(self)@.wf(),
        ensures
            final(self)@.wf(),
            final(self)@ == old(self)@.publish_immediate_to_all(m),
    {
        let mut i: usize = 0;
        while i < self.queues.len()
            invariant
                old(self)@.wf(),
                i <= self.queues.len(),
                self.capacity == old(self).capacity,
                self.publisher_slots == old(self).publisher_slots,
                self.subscriber_slots == old(self).subscriber_slots,
                self.publishers_issued == old(self).publishers_issued,
                self@.queues.len() == old(self)@.queues.len(),
                forall|j: int|
                    0 <= j < i ==> #[trigger] self@.queues[j] == old(
                        self,
                    )@.publish_immediate_to_all(m).queues[j],
                forall|j: int|
                    i <= j < self@.queues.len() ==> #[trigger] self@.queues[j] == old(
                        self,
                    )@.queues[j],
            decreases self.queues.len() - i,
        {
            let ghost prev = self@.queues;
            if self.queues[i].len() >= self.capacity {
                let _ = self.queues[i].remove(0);
                self.queues[i].push(m);
                proof {
                    assert(self@.queues =~= prev.update(
                        i as int,
                        prev[i as int].drop_first().push(m),
                    )) by {
                        assert(prev[i as int].remove(0) =~= prev[i as int].drop_first());
                    }
                }
            } else {
                self.queues[i].push(m);
                proof {
                    assert(self@.queues =~= prev.update(i as int, prev[i as int].push(m)));
                }
            }
            i = i + 1;
        }
        proof {
            assert(self@ =~= old(self)@.publish_immediate_to_all(m)) by {
                assert(self@.queues =~= old(self)@.publish_immediate_to_all(m).queues);
            }
        }
    }

    /// Dequeues the oldest reading of this subscriber's queue, or reports
    /// the queue empty (the consumer then waits).  Only this subscriber's
    /// queue moves; every other queue is untouched.
    pub fn next(&mut self, subscriber: &MetricsSubscriber) -> (r: Option<Metrics>)
        requires
            old(self)@.wf(),
            subscriber@ < old(self)@.queues.len(),
        ensures
            final(self)@.wf(),
            old(self)@.queues[subscriber@ as int].len() > 0 ==> {
                &&& r == Some(old(self)@.queues[subscriber@ as int][0])
                &&& final(self)@ == old(self)@.pop_at(subscriber@ as int)
            },
            old(self)@.queues[subscriber@ as int].len() == 0 ==> {
                &&& r is None
                &&& final(self)@ == old(self)@
            },
    {
        let id = subscriber.id;
        if self.queues[id].len() == 0 {
            return None;
        }
        let m = self.queues[id].remove(0);
        proof {
            assert(self@.queues =~= old(self)@.pop_at(subscriber@ as int).queues);
            assert(self@ =~= old(self)@.pop_at(subscriber@ as int));
        }
        Some(m)
    }
}

/// The state after a whole sequence of readings is delivered, in order.  Any
/// interleaving of the publishers' streams that actually gets delivered is
/// one such sequence.
pub open spec fn publish_seq(v: ChannelModel, ms: Seq<Metrics>) -> ChannelModel
    decreases ms.len(),
{
    if ms.len() == 0 {
        v
    } else {
        publish_seq(v.publish_to_all(ms[0]), ms.drop_first())
    }
}

/// The readings subscriber `i` observes through `k` successive `next` calls,
/// in the order they come back.
pub open spec fn observed(v: ChannelModel, i: int, k: nat) -> Seq<Metrics>
    decreases k,
{
    if k == 0 || v.queues[i].len() == 0 {
        Seq::empty()
    } else {
        seq![v.queues[i][0]] + observed(v.pop_at(i), i, (k - 1) as nat)
    }
}

/// Delivering a sequence of readings appends it, in order, to the tail of
/// every registered queue, and registers nobody.
pub proof fn lemma_publish_seq_appends(v: ChannelModel, ms: Seq<Metrics>, i: int)
    requires
        0 <= i < v.queues.len(),
    ensures
        publish_seq(v, ms).queues.len() == v.queues.len(),
        publish_seq(v, ms).queues[i] == v.queues[i] + ms,
        publish_seq(v, ms).capacity == v.capacity,
        publish_seq(v, ms).publisher_slots == v.publisher_slots,
        publish_seq(v, ms).subscriber_slots == v.subscriber_slots,
        publish_seq(v, ms).publishers == v.publishers,
    decreases ms.len(),
{
    if ms.len() == 0 {
        assert(v.queues[i] + ms =~= v.queues[i]);
    } else {
        lemma_publish_seq_appends(v.publish_to_all(ms[0]), ms.drop_first(), i);
        assert(v.queues[i].push(ms[0]) + ms.drop_first() =~= v.queues[i] + ms);
    }
}

/// What a subscriber observes is exactly the front of its queue: `k` calls
/// return the first `k` queued readings, in queue order.
pub proof fn lemma_observed_is_queue_prefix(v: ChannelModel, i: int, k: nat)
    requires
        0 <= i < v.queues.len(),
        k <= v.queues[i].len(),
    ensures
        observed(v, i, k) == v.queues[i].take(k as int),
    decreases k,
{
    if k == 0 {
        assert(v.queues[i].take(0) =~= Seq::<Metrics>::empty());
    } else {
        lemma_observed_is_queue_prefix(v.pop_at(i), i, (k - 1) as nat);
        assert(seq![v.queues[i][0]] + v.queues[i].drop_first().take(k as int - 1)
            =~= v.queues[i].take(k as int));
    }
}

/// First-in-first-out delivery, per edge: when a sequence of readings is
/// delivered in issue order, a registered subscriber drains its backlog and
/// then observes the delivered readings in exactly that order.  Since every
/// delivered interleaving keeps each publisher's stream in issue order, no
/// subscriber ever sees two readings of one publisher out of order.
pub proof fn lemma_fifo_per_edge(v: ChannelModel, ms: Seq<Metrics>, i: int)
    requires
        0 <= i < v.queues.len(),
    ensures
        observed(publish_seq(v, ms), i, (v.queues[i].len() + ms.len()) as nat) == v.queues[i] + ms,
{
    lemma_publish_seq_appends(v, ms, i);
    lemma_observed_is_queue_prefix(
        publish_seq(v, ms),
        i,
        (v.queues[i].len() + ms.len()) as nat,
    );
    assert((v.queues[i] + ms).take((v.queues[i].len() + ms.len()) as int) =~= v.queues[i] + ms);
}

/// Subscriber isolation: draining one queue leaves every other queue
/// untouched, and a delivery advances every registered queue, whether or not
/// its owner ever drains it.
pub proof fn lemma_subscriber_isolation(v: ChannelModel, i: int, j: int, m: Metrics)
    requires
        0 <= i < v.queues.len(),
        0 <= j < v.queues.len(),
        i != j,
    ensures
        v.pop_at(i).queues[j] == v.queues[j],
        v.publish_to_all(m).queues[j] == v.queues[j].push(m),
{
}

/// The price of loss-free delivery: one full queue alone suspends
/// publishing.  A subscriber that never drains blocks publishers as soon as
/// its own queue has filled — and not before, as `can_publish` asks nothing
/// of queues with room.
pub proof fn lemma_full_queue_blocks(v: ChannelModel, i: int)
    requires
        0 <= i < v.queues.len(),
        v.queues[i].len() >= v.capacity,
    ensures
        !v.can_publish(),
{
}

/// A subscriber that never drains eventually back-pressures: once enough
/// readings have been delivered to fill its queue, no further delivery is
/// possible until it drains.
pub proof fn lemma_idle_subscriber_backpressure(v: ChannelModel, ms: Seq<Metrics>, i: int)
    requires
        0 <= i < v.queues.len(),
        v.queues[i].len() + ms.len() >= v.capacity,
    ensures
        !publish_seq(v, ms).can_publish(),
{
    lemma_publish_seq_appends(v, ms, i);
    lemma_full_queue_blocks(publish_seq(v, ms), i);
}

} // verus!
