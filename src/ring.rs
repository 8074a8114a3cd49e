use vstd::prelude::*;
use ringbuf::{HeapConsumer, HeapProducer, HeapRb};

verus! {

/// The sending half of a lock-free single-producer, single-consumer ring.
#[verifier::external_body]
#[verifier::reject_recursive_types(T)]
pub struct RingProducer<T> {
    inner: HeapProducer<T>,
}

/// The receiving half of a lock-free single-producer, single-consumer ring.
#[verifier::external_body]
#[verifier::reject_recursive_types(T)]
pub struct RingConsumer<T> {
    inner: HeapConsumer<T>,
}

/// Relies on `HeapRb::new` and `split`: a ring of `capacity` slots, split
/// into its two halves; `new` panics on zero.
#[verifier::external_body]
pub(crate) fn ring_new<T>(capacity: usize) -> (RingProducer<T>, RingConsumer<T>)
    requires
        capacity > 0,
{
    let (p, c) = HeapRb::new(capacity).split();
    (RingProducer { inner: p }, RingConsumer { inner: c })
}

/// Relies on `Consumer::pop`: takes the oldest item, if any.
#[verifier::external_body]
pub(crate) fn ring_pop<T>(consumer: &mut RingConsumer<T>) -> Option<T> {
    consumer.inner.pop()
}

/// The sending half of a ring, with its capacity and the record of every item
/// it accepted. Only `channel` builds one, and only `send` pushes, so the
/// record counts every item that ever entered the ring.
///
/// The receiving half's record is always a prefix of this one, in the same
/// order (the ring is first in, first out). The two halves live on different
/// threads, and that relation between them is not stated here.
#[verifier::reject_recursive_types(T)]
pub struct Sender<T> {
    ring: RingProducer<T>,
    capacity: Ghost<nat>,
    sent: Ghost<Seq<T>>,
}

/// Relies on `Producer::push`: appends the item when a slot is free, and
/// otherwise hands the very item back. The ring holds no more items than were
/// ever pushed, so while fewer than its capacity were pushed a slot is free.
#[verifier::external_body]
fn ring_push<T>(sender: &mut Sender<T>, item: T) -> (r: Result<(), T>)
    ensures
        r matches Err(back) ==> back == item,
        old(sender).sent().len() < old(sender).capacity() ==> r is Ok,
        final(sender).sent() == old(sender).sent(),
        final(sender).capacity() == old(sender).capacity(),
{
    sender.ring.inner.push(item)
}

impl<T> Sender<T> {
    /// Every item the ring has accepted, in order.
    pub closed spec fn sent(&self) -> Seq<T> {
        self.sent@
    }

    /// The number of slots of the ring.
    pub closed spec fn capacity(&self) -> nat {
        self.capacity@
    }

    /// Offers `item` to the ring: accepted whole and recorded, or handed back
    /// with nothing recorded. It is accepted while fewer items than the ring's
    /// capacity were ever sent.
    pub fn send(&mut self, item: T) -> (r: Result<(), T>)
        ensures
            r is Ok ==> final(self).sent() == old(self).sent().push(item),
            r matches Err(back) ==> back == item && final(self).sent() == old(self).sent(),
            old(self).sent().len() < old(self).capacity() ==> r is Ok,
            final(self).capacity() == old(self).capacity(),
    {
        let ghost it = item;
        let r = ring_push(self, item);
        if r.is_ok() {
            self.sent = Ghost(self.sent@.push(it));
        }
        r
    }
}

/// The receiving half of a ring, with the record of every item it gave out.
#[verifier::reject_recursive_types(T)]
pub struct Receiver<T> {
    ring: RingConsumer<T>,
    received: Ghost<Seq<T>>,
}

impl<T> Receiver<T> {
    /// Every item taken from the ring, in order.
    pub closed spec fn received(&self) -> Seq<T> {
        self.received@
    }

    /// Takes the oldest item, if any, and records it.
    pub fn recv(&mut self) -> (r: Option<T>)
        ensures
            r matches Some(x) ==> final(self).received() == old(self).received().push(x),
            r is None ==> final(self).received() == old(self).received(),
    {
        let r = ring_pop(&mut self.ring);
        match r {
            Some(x) => {
                self.received = Ghost(self.received@.push(x));
                Some(x)
            },
            None => None,
        }
    }
}

/// A ring of `capacity` slots, as its two halves with empty records.
pub fn channel<T>(capacity: usize) -> (r: (Sender<T>, Receiver<T>))
    requires
        capacity > 0,
    ensures
        r.0.sent() == Seq::<T>::empty(),
        r.0.capacity() == capacity,
        r.1.received() == Seq::<T>::empty(),
{
    let (p, c) = ring_new::<T>(capacity);
    (
        Sender { ring: p, capacity: Ghost(capacity as nat), sent: Ghost(Seq::empty()) },
        Receiver { ring: c, received: Ghost(Seq::empty()) },
    )
}

} // verus!
