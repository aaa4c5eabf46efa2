use vstd::prelude::*;
use ringbuf::traits::{Consumer, Observer, Producer, Split};
use ringbuf::{HeapCons, HeapProd, HeapRb};

verus! {

/// Writing end of the bounded sample queue, owned by the decode worker.
#[verifier::external_body]
pub struct SampleProducer {
    inner: HeapProd<i32>,
}

/// Reading end of the bounded sample queue, owned by the output sink.
#[verifier::external_body]
pub struct SampleConsumer {
    inner: HeapCons<i32>,
}

/// Number of slots of the ring that a producer writes to.
pub uninterp spec fn producer_capacity(p: SampleProducer) -> nat;

/// Number of slots of the ring that a consumer reads from.
pub uninterp spec fn consumer_capacity(c: SampleConsumer) -> nat;

/// Every sample this producer has stored in the ring, in order.
pub uninterp spec fn accepted_of(p: SampleProducer) -> Seq<i32>;

/// Every sample this consumer has taken from the ring, in order.
pub uninterp spec fn popped_of(c: SampleConsumer) -> Seq<i32>;

/// Relies on `HeapRb::new` (an empty ring of exactly `capacity` slots; it
/// panics on zero) and on `Split::split`, which hands out its two ends.
#[verifier::external_body]
fn ring_ends(capacity: usize) -> (r: (SampleProducer, SampleConsumer))
    requires
        capacity > 0,
    ensures
        producer_capacity(r.0) == capacity,
        consumer_capacity(r.1) == capacity,
        accepted_of(r.0) == Seq::<i32>::empty(),
        popped_of(r.1) == Seq::<i32>::empty(),
{
    let (inner_p, inner_c) = HeapRb::<i32>::new(capacity).split();
    (SampleProducer { inner: inner_p }, SampleConsumer { inner: inner_c })
}

/// Relies on `Producer::try_push`: the item is either stored after the
/// earlier ones or handed back, the ring unchanged.
#[verifier::external_body]
fn ring_try_push(p: &mut SampleProducer, sample: i32) -> (r: Result<(), i32>)
    ensures
        producer_capacity(*final(p)) == producer_capacity(*old(p)),
        r matches Err(v) ==> v == sample,
        r is Ok ==> accepted_of(*final(p)) == accepted_of(*old(p)).push(sample),
        r is Err ==> accepted_of(*final(p)) == accepted_of(*old(p)),
{
    p.inner.try_push(sample)
}

/// Relies on `Consumer::try_pop`, which returns at once: the oldest item,
/// removed, or `None` when empty and the ring unchanged.
#[verifier::external_body]
fn ring_try_pop(c: &mut SampleConsumer) -> (r: Option<i32>)
    ensures
        consumer_capacity(*final(c)) == consumer_capacity(*old(c)),
        r matches Some(v) ==> popped_of(*final(c)) == popped_of(*old(c)).push(v),
        r is None ==> popped_of(*final(c)) == popped_of(*old(c)),
{
    c.inner.try_pop()
}

/// Relies on `Observer::capacity` of the producer: the slot count it was made with.
#[verifier::external_body]
fn ring_producer_capacity(p: &SampleProducer) -> (r: usize)
    ensures
        r == producer_capacity(*p),
{
    p.inner.capacity().get()
}

/// Relies on `Observer::capacity` of the consumer: the slot count it was made with.
#[verifier::external_body]
fn ring_consumer_capacity(c: &SampleConsumer) -> (r: usize)
    ensures
        r == consumer_capacity(*c),
{
    c.inner.capacity().get()
}

/// Relies on `Observer::occupied_len` of the producer: a count taken from one
/// pair of ring indices, which never differ by more than the capacity.
#[verifier::external_body]
fn ring_producer_len(p: &SampleProducer) -> (r: usize)
    ensures
        r <= producer_capacity(*p),
{
    p.inner.occupied_len()
}

/// Relies on `Observer::occupied_len` of the consumer, as for the producer.
#[verifier::external_body]
fn ring_consumer_len(c: &SampleConsumer) -> (r: usize)
    ensures
        r <= consumer_capacity(*c),
{
    c.inner.occupied_len()
}

/// Relies on `Observer::is_full` of the producer.
#[verifier::external_body]
fn ring_is_full(p: &SampleProducer) -> (r: bool) {
    p.inner.is_full()
}

/// A fresh, empty queue of `capacity` samples, as its two ends: nothing has
/// gone in or come out yet.
pub fn sample_queue(capacity: usize) -> (r: (SampleProducer, SampleConsumer))
    requires
        capacity > 0,
    ensures
        producer_capacity(r.0) == capacity,
        consumer_capacity(r.1) == capacity,
        accepted_of(r.0) == Seq::<i32>::empty(),
        popped_of(r.1) == Seq::<i32>::empty(),
{
    ring_ends(capacity)
}

impl SampleProducer {
    /// Offers one sample; `false` when the queue is full, in which case the
    /// caller retries later. Never blocks.
    pub fn push(&mut self, sample: i32) -> (accepted: bool)
        ensures
            producer_capacity(*final(self)) == producer_capacity(*old(self)),
            accepted ==> accepted_of(*final(self)) == accepted_of(*old(self)).push(sample),
            !accepted ==> accepted_of(*final(self)) == accepted_of(*old(self)),
    {
        match ring_try_push(self, sample) {
            Ok(()) => true,
            Err(_) => false,
        }
    }

    /// Samples in the queue as this end sees them; never above the capacity.
    pub fn len(&self) -> (r: usize)
        ensures
            r <= producer_capacity(*self),
    {
        ring_producer_len(self)
    }

    pub fn capacity(&self) -> (r: usize)
        ensures
            r == producer_capacity(*self),
    {
        ring_producer_capacity(self)
    }

    /// Whether the next push would be refused, unless the consumer pops first.
    pub fn is_full(&self) -> bool {
        ring_is_full(self)
    }
}

impl SampleConsumer {
    /// Takes the oldest sample; `None` on underrun. Never blocks.
    pub fn pop(&mut self) -> (r: Option<i32>)
        ensures
            consumer_capacity(*final(self)) == consumer_capacity(*old(self)),
            r matches Some(v) ==> popped_of(*final(self)) == popped_of(*old(self)).push(v),
            r is None ==> popped_of(*final(self)) == popped_of(*old(self)),
    {
        ring_try_pop(self)
    }

    /// Samples in the queue as this end sees them; never above the capacity.
    pub fn len(&self) -> (r: usize)
        ensures
            r <= consumer_capacity(*self),
    {
        ring_consumer_len(self)
    }

    pub fn capacity(&self) -> (r: usize)
        ensures
            r == consumer_capacity(*self),
    {
        ring_consumer_capacity(self)
    }
}

} // verus!
