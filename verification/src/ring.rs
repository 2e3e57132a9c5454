//! The ring buffer between the decoder and the hardware callback: a
//! lock-free queue of samples with one producer and one consumer, which may
//! run on different threads.
//!
//! A sample is a 32-bit word that the library carries and never looks into,
//! but for the word zero, which is silence.

use vstd::prelude::*;
use ringbuf::traits::{Consumer, Observer, Producer, Split};
use crate::session::SessionEvent;
use crate::supervisor::RING_CAPACITY;
use crate::units::min_int;

verus! {

/// A ring buffer of samples that has not been split into its ends yet: a
/// `ringbuf::HeapRb<u32>`, which the verifier does not look into. What is
/// known of it is what the functions of this module say.
#[verifier::external_body]
pub struct SampleRing {
    inner: ringbuf::HeapRb<u32>,
}

/// The producing end of a ring buffer of samples: a `ringbuf::HeapProd<u32>`,
/// which the verifier does not look into. What is known of it is what the
/// functions of this module say.
#[verifier::external_body]
pub struct SampleProducer {
    inner: ringbuf::HeapProd<u32>,
}

/// The consuming end of a ring buffer of samples: a `ringbuf::HeapCons<u32>`,
/// which the verifier does not look into. What is known of it is what the
/// functions of this module say.
#[verifier::external_body]
pub struct SampleConsumer {
    inner: ringbuf::HeapCons<u32>,
}

/// The samples that a ring buffer holds, the oldest first.
pub uninterp spec fn stored(ring: SampleRing) -> Seq<u32>;

/// The free places of a ring buffer.
pub uninterp spec fn spare(ring: SampleRing) -> nat;

/// Every sample that the producer has put into the ring buffer so far, in
/// the order in which it did.
pub uninterp spec fn sent(producer: SampleProducer) -> Seq<u32>;

/// The free places that the producer has seen in the ring buffer and not
/// filled yet. The ring buffer may have more: those of the samples that the
/// consumer has taken out since the producer last looked.
pub uninterp spec fn room(producer: SampleProducer) -> nat;

/// The places of the ring buffer that the producer belongs to, free or
/// filled: its capacity, which is fixed when the ring buffer is made.
pub uninterp spec fn places(producer: SampleProducer) -> nat;

/// The samples that the consumer has seen in the ring buffer and not taken
/// out yet, the oldest first. The ring buffer may hold more: what the
/// producer has put in since the consumer last looked.
pub uninterp spec fn held(consumer: SampleConsumer) -> Seq<u32>;

/// How many samples the consumer has taken out of the ring buffer so far,
/// those that it dropped among them.
pub uninterp spec fn taken(consumer: SampleConsumer) -> nat;

/// `ringbuf::HeapRb::<u32>::new`: a new ring buffer of the given capacity,
/// which holds nothing, so that all its places are free. The capacity is not
/// zero, for which `new` panics.
#[verifier::external_body]
fn new_ring(capacity: usize) -> (ring: SampleRing)
    requires
        capacity > 0,
    ensures
        stored(ring) == Seq::<u32>::empty(),
        spare(ring) == capacity,
{
    SampleRing { inner: ringbuf::HeapRb::<u32>::new(capacity) }
}

/// `ringbuf::traits::Split::split` on a ring buffer: its two ends. The
/// producer has put nothing in yet and sees the free places of the ring
/// buffer, and the consumer has taken nothing out yet and sees what the ring
/// buffer holds. The places of the ring buffer are those that are free and
/// those that are filled.
#[verifier::external_body]
fn split(ring: SampleRing) -> (ends: (SampleProducer, SampleConsumer))
    ensures
        sent(ends.0) == Seq::<u32>::empty(),
        room(ends.0) == spare(ring),
        places(ends.0) == spare(ring) + stored(ring).len(),
        held(ends.1) == stored(ring),
        taken(ends.1) == 0,
{
    let (producer, consumer) = ring.inner.split();
    (SampleProducer { inner: producer }, SampleConsumer { inner: consumer })
}

/// `ringbuf::traits::Producer::try_push` on the producing end: appends the
/// sample unless the ring buffer is full, and says whether it did. If the
/// producer has seen a free place that it has not filled, the sample goes
/// there. Otherwise the producer looks at the ring buffer again, and what
/// it finds depends on the consumer; if it does not append the sample, it
/// has found no free place. The ring buffer keeps its capacity.
#[verifier::external_body]
fn try_push(producer: &mut SampleProducer, sample: u32) -> (pushed: bool)
    ensures
        places(*final(producer)) == places(*old(producer)),
        pushed ==> sent(*final(producer)) == sent(*old(producer)).push(sample),
        !pushed ==> sent(*final(producer)) == sent(*old(producer)),
        room(*old(producer)) > 0 ==> pushed && room(*final(producer)) == room(*old(producer)) - 1,
        !pushed ==> room(*final(producer)) == 0,
{
    producer.inner.try_push(sample).is_ok()
}

/// `ringbuf::traits::Observer::is_empty` on the producing end: the producer
/// reads afresh how far the consumer has come and says whether that is as
/// far as it has written itself. That is so exactly when every place of the
/// ring buffer is free to the producer's eyes; the crate never lets more
/// places be free, or filled, than the ring buffer has. The consumer may
/// take samples out at any time, so the answer is of the moment at which
/// the producer looked. The free places that the producer sees do not get
/// fewer by looking, what it has put in stays as it is, and so does the
/// capacity.
#[verifier::external_body]
fn seems_empty(producer: &mut SampleProducer) -> (empty: bool)
    ensures
        sent(*final(producer)) == sent(*old(producer)),
        places(*final(producer)) == places(*old(producer)),
        room(*final(producer)) >= room(*old(producer)),
        room(*final(producer)) <= places(*final(producer)),
        empty <==> room(*final(producer)) == places(*final(producer)),
{
    producer.inner.is_empty()
}

/// `ringbuf::traits::Consumer::try_pop` on the consuming end. If the
/// consumer has seen a sample that it has not taken out, the oldest such
/// sample is taken out and returned. Otherwise the consumer looks at the
/// ring buffer again, and what it finds depends on the producer; if it
/// returns nothing, it has found the ring buffer empty and taken nothing
/// out. A sample that it returns is one more taken out.
#[verifier::external_body]
pub(crate) fn try_pop(consumer: &mut SampleConsumer) -> (sample: Option<u32>)
    ensures
        held(*old(consumer)).len() > 0 ==> sample == Some(held(*old(consumer))[0]) && held(
            *final(consumer),
        ) == held(*old(consumer)).drop_first(),
        sample is None ==> held(*final(consumer)).len() == 0,
        sample is Some ==> taken(*final(consumer)) == taken(*old(consumer)) + 1,
        sample is None ==> taken(*final(consumer)) == taken(*old(consumer)),
{
    consumer.inner.try_pop()
}

/// `ringbuf::traits::Observer::occupied_len` on the consuming end: the
/// consumer looks at the ring buffer again and returns how many samples it
/// sees. What it had seen before is still there, at the front, and nothing
/// is taken out.
#[verifier::external_body]
pub(crate) fn occupied_len(consumer: &mut SampleConsumer) -> (count: usize)
    ensures
        count == held(*final(consumer)).len(),
        count >= held(*old(consumer)).len(),
        held(*final(consumer)).take(held(*old(consumer)).len() as int) == held(*old(consumer)),
        taken(*final(consumer)) == taken(*old(consumer)),
{
    consumer.inner.occupied_len()
}

/// `ringbuf::traits::Consumer::skip` on the consuming end: the consumer
/// looks at the ring buffer again and drops up to `count` of the oldest
/// samples it sees. It returns how many it dropped: at most `count`, at
/// least as many of `count` as it had seen before, and fewer than `count`
/// only if none is left. The samples dropped are taken out; of what the
/// consumer had seen before, the rest is still there, at the front.
#[verifier::external_body]
pub(crate) fn skip(consumer: &mut SampleConsumer, count: usize) -> (dropped: usize)
    ensures
        dropped <= count,
        dropped >= count || dropped >= held(*old(consumer)).len(),
        dropped < count ==> held(*final(consumer)).len() == 0,
        taken(*final(consumer)) == taken(*old(consumer)) + dropped,
        dropped <= held(*old(consumer)).len() ==> held(*final(consumer)).take(
            held(*old(consumer)).len() - dropped,
        ) == held(*old(consumer)).skip(dropped as int),
{
    consumer.inner.skip(count)
}

/// The samples of a sequence of stereo frames in the order in which they are
/// queued: left before right, frame after frame.
pub open spec fn interleaved(frames: Seq<(u32, u32)>) -> Seq<u32> {
    Seq::new(
        2 * frames.len(),
        |s: int|
            if s % 2 == 0 {
                frames[s / 2].0
            } else {
                frames[s / 2].1
            },
    )
}

/// A new ring buffer for two seconds of stereo at 192 kHz, as its two ends.
pub fn sample_ring() -> (ends: (SampleProducer, SampleConsumer))
    ensures
        sent(ends.0) == Seq::<u32>::empty(),
        room(ends.0) == RING_CAPACITY,
        places(ends.0) == RING_CAPACITY,
        held(ends.1) == Seq::<u32>::empty(),
        taken(ends.1) == 0,
{
    split(new_ring(RING_CAPACITY))
}

/// Puts the samples of `frames` into the ring buffer, from the `from`-th
/// sample on, until the ring buffer is full or all are in. Returns the index
/// of the first sample that is not in; the caller waits and goes on from
/// there. The samples go in one by one and in their order. As many go in as
/// the producer has seen free places for, if there are as many, and each
/// fills one of those places; it stops before the last sample only where it
/// has found no free place.
pub fn queue_frames(producer: &mut SampleProducer, frames: &[(u32, u32)], from: usize) -> (next:
    usize)
    requires
        from <= 2 * frames.len(),
        2 * frames.len() <= usize::MAX,
    ensures
        from <= next <= 2 * frames.len(),
        sent(*final(producer)) == sent(*old(producer)) + interleaved(frames@).subrange(
            from as int,
            next as int,
        ),
        next - from >= min_int(2 * frames.len() - from, room(*old(producer)) as int),
        next < 2 * frames.len() ==> room(*final(producer)) == 0,
        room(*old(producer)) >= next - from ==> room(*final(producer)) == room(*old(producer)) - (
        next - from),
        places(*final(producer)) == places(*old(producer)),
{
    let total: usize = 2 * frames.len();
    let mut s: usize = from;
    while s < total
        invariant
            from <= s <= total,
            total == 2 * frames.len(),
            sent(*producer) == sent(*old(producer)) + interleaved(frames@).subrange(
                from as int,
                s as int,
            ),
            room(*old(producer)) >= s - from ==> room(*producer) == room(*old(producer)) - (s
                - from),
            places(*producer) == places(*old(producer)),
        decreases total - s,
    {
        let frame: (u32, u32) = frames[s / 2];
        let sample: u32 = if s % 2 == 0 {
            frame.0
        } else {
            frame.1
        };
        let ghost before = sent(*producer);
        if !try_push(producer, sample) {
            return s;
        }
        assert(before.push(sample) =~= sent(*old(producer)) + interleaved(frames@).subrange(
            from as int,
            s + 1,
        ));
        s += 1;
    }
    s
}

/// What the decoder reports while it waits for the ring buffer to run
/// empty: the stop flag as it read it, and whether the ring buffer seemed
/// empty to the producer, which looks at it afresh. It seems empty exactly
/// when the producer then sees every place of it free. The consumer takes
/// samples out as it pleases, so the ring buffer may have run empty since
/// the producer looked; it has not filled, for only the producer fills it.
pub fn drain_poll(producer: &mut SampleProducer, stop: bool) -> (event: SessionEvent)
    ensures
        event is DrainPolled,
        event->DrainPolled_stop == stop,
        event->DrainPolled_ring_empty <==> room(*final(producer)) == places(*final(producer)),
        sent(*final(producer)) == sent(*old(producer)),
        places(*final(producer)) == places(*old(producer)),
        room(*final(producer)) >= room(*old(producer)),
        room(*final(producer)) <= places(*final(producer)),
{
    SessionEvent::DrainPolled { stop, ring_empty: seems_empty(producer) }
}

} // verus!
