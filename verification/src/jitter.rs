//! The jitter buffer between the UDP receiver and the audio output: a
//! `ringbuf` single-producer single-consumer ring of samples (bit patterns,
//! as in [`crate::audio_buffer`]). The receiving thread holds the producer,
//! the output callback the consumer.
//!
//! The two ends run on different threads, so what the ring holds when one
//! end looks depends on what the other end did meanwhile; the contracts here
//! say only what holds whatever the other end did.

use ringbuf::traits::{Consumer, Producer, Split};
use ringbuf::{HeapCons, HeapProd, HeapRb};
use vstd::prelude::*;

verus! {

/// The receiving end of the jitter buffer.
#[verifier::external_body]
pub struct SampleProducer {
    inner: HeapProd<u32>,
}

/// The playing end of the jitter buffer.
#[verifier::external_body]
pub struct SampleConsumer {
    inner: HeapCons<u32>,
}

/// The number of samples the ring behind a producer holds at most.
pub uninterp spec fn producer_capacity(p: SampleProducer) -> nat;

/// The number of samples the ring behind a consumer holds at most.
pub uninterp spec fn consumer_capacity(c: SampleConsumer) -> nat;

/// The free slots a producer knows of: ringbuf's caching producer keeps its
/// own copy of the ring's read index, fetched only when that copy shows the
/// ring full, and this is the capacity less the samples between that copy
/// and its write index. The consumer only frees slots, so at least this many
/// are free.
pub uninterp spec fn cached_vacant(p: SampleProducer) -> nat;

/// The samples a producer has written that it still counts as in the ring,
/// eldest first: those in the storage slots from its copy of the read index
/// up to its write index. Their number and [`cached_vacant`] make up the
/// capacity.
pub uninterp spec fn cached_items(p: SampleProducer) -> Seq<u32>;

/// The samples a consumer knows the ring holds, eldest first: ringbuf's
/// caching consumer keeps its own copy of the ring's write index, fetched
/// only when that copy shows the ring empty, and these are the samples from
/// its read index up to that copy. The producer writes only into free slots,
/// so these stay as they are until the consumer takes them.
pub uninterp spec fn cached_samples(c: SampleConsumer) -> Seq<u32>;

/// `HeapRb::<u32>::new(capacity).split()`: an empty ring of exactly
/// `capacity` samples (ringbuf's `Heap::new` fixes the storage length, both
/// indices start at 0), split into its two ends, each of which copies the
/// ring's indices. `HeapRb::new` panics on a zero capacity, hence the
/// `requires`.
#[verifier::external_body]
fn split_ring(capacity: usize) -> (r: (SampleProducer, SampleConsumer))
    requires
        capacity > 0,
    ensures
        producer_capacity(r.0) == capacity,
        consumer_capacity(r.1) == capacity,
        cached_vacant(r.0) == capacity,
        cached_items(r.0) == Seq::<u32>::empty(),
        cached_samples(r.1) == Seq::<u32>::empty(),
{
    let (p, c) = HeapRb::<u32>::new(capacity).split();
    (SampleProducer { inner: p }, SampleConsumer { inner: c })
}

/// `Producer::try_push` of ringbuf's caching producer: appends `x` when the
/// ring is not full, and otherwise hands `x` back as the error. While its
/// copy of the read index shows a free slot it does not look at the ring
/// again, and the push succeeds, using up that slot. Otherwise it fetches the
/// read index first, which drops from its count the `k` eldest samples the
/// consumer has taken meanwhile; whether the ring is full then depends on
/// the consumer's thread, so which of the two happens is not stated. A
/// successful push writes `x` into the slot at the write index, after the
/// samples it counts.
#[verifier::external_body]
fn try_push(p: &mut SampleProducer, x: u32) -> (r: Result<(), u32>)
    ensures
        r matches Err(v) ==> v == x,
        producer_capacity(*final(p)) == producer_capacity(*old(p)),
        cached_vacant(*old(p)) > 0 ==> r is Ok && cached_vacant(*final(p)) == cached_vacant(
            *old(p),
        ) - 1 && cached_items(*final(p)) == cached_items(*old(p)).push(x),
        r is Ok ==> exists|k: int|
            0 <= k <= cached_items(*old(p)).len() && #[trigger] cached_items(*old(p)).push(x).skip(k)
                == cached_items(*final(p)),
        r is Err ==> exists|k: int|
            0 <= k <= cached_items(*old(p)).len() && #[trigger] cached_items(*old(p)).skip(k)
                == cached_items(*final(p)),
        cached_vacant(*final(p)) + cached_items(*final(p)).len() == producer_capacity(*final(p)),
{
    p.inner.try_push(x)
}

/// `Consumer::try_pop` of ringbuf's caching consumer: the eldest sample of
/// the ring, removed, or `None` when the ring is empty. While its copy of the
/// write index shows samples it does not look at the ring again and takes the
/// eldest of them. Otherwise it fetches the write index first, and what it
/// finds then depends on the producer's thread; `None` leaves it knowing of
/// no sample.
#[verifier::external_body]
fn try_pop(c: &mut SampleConsumer) -> (r: Option<u32>)
    ensures
        consumer_capacity(*final(c)) == consumer_capacity(*old(c)),
        cached_samples(*old(c)).len() > 0 ==> r == Some(cached_samples(*old(c))[0])
            && cached_samples(*final(c)) == cached_samples(*old(c)).drop_first(),
        r is None ==> cached_samples(*final(c)).len() == 0,
{
    c.inner.try_pop()
}

/// A jitter buffer that holds one second of audio: `sample_rate * channels`
/// samples.
pub fn jitter_buffer(sample_rate: u32, channels: u16) -> (r: (SampleProducer, SampleConsumer))
    requires
        sample_rate > 0,
        channels > 0,
        sample_rate * channels <= usize::MAX,
    ensures
        producer_capacity(r.0) == sample_rate * channels,
        consumer_capacity(r.1) == sample_rate * channels,
        cached_vacant(r.0) == sample_rate * channels,
        cached_items(r.0) == Seq::<u32>::empty(),
        cached_samples(r.1) == Seq::<u32>::empty(),
{
    proof {
        vstd::arithmetic::mul::lemma_mul_strictly_positive(sample_rate as int, channels as int);
    }
    split_ring((sample_rate as usize) * (channels as usize))
}

/// The samples of `s` whose flag in `accepted` is set, in order.
pub open spec fn kept_of(s: Seq<u32>, accepted: Seq<bool>) -> Seq<u32>
    decreases s.len(),
{
    if s.len() == 0 {
        Seq::empty()
    } else if accepted.last() {
        kept_of(s.drop_last(), accepted.drop_last()).push(s.last())
    } else {
        kept_of(s.drop_last(), accepted.drop_last())
    }
}

/// What offering `samples` one by one can leave a producer counting, having
/// taken `taken` of them, when it counted `before` and knew of `room` free
/// slots: an in-order selection of the samples that holds at least the
/// first `room` of them, written after what it counted before, less the
/// eldest samples that the consumer took meanwhile.
pub open spec fn offered(
    before: Seq<u32>,
    room: nat,
    samples: Seq<u32>,
    taken: nat,
    after: Seq<u32>,
) -> bool {
    exists|accepted: Seq<bool>, dropped: int|
        {
            &&& accepted.len() == samples.len()
            &&& forall|j: int| 0 <= j < samples.len() && j < room ==> accepted[j]
            &&& taken == kept_of(samples, accepted).len()
            &&& 0 <= dropped <= before.len() + taken
            &&& #[trigger] (before + kept_of(samples, accepted)).skip(dropped) == after
        }
}

/// Offers `samples` to the ring one by one, in order; a sample that finds
/// the ring full is dropped. Returns how many the ring took: every sample
/// while the producer knows of free slots, so at least as many as it knew of,
/// and all of them when it knew of enough. The samples taken are written in
/// their order, after what the producer counted before.
pub fn offer_all(p: &mut SampleProducer, samples: &[u32]) -> (taken: usize)
    ensures
        taken <= samples@.len(),
        producer_capacity(*final(p)) == producer_capacity(*old(p)),
        taken >= if samples@.len() <= cached_vacant(*old(p)) {
            samples@.len()
        } else {
            cached_vacant(*old(p))
        },
        samples@.len() <= cached_vacant(*old(p)) ==> taken == samples@.len() && cached_vacant(
            *final(p),
        ) == cached_vacant(*old(p)) - samples@.len() && cached_items(*final(p)) == cached_items(
            *old(p),
        ) + samples@,
        offered(
            cached_items(*old(p)),
            cached_vacant(*old(p)),
            samples@,
            taken as nat,
            cached_items(*final(p)),
        ),
{
    let ghost v0 = cached_vacant(*p);
    let ghost before = cached_items(*p);
    let ghost mut accepted: Seq<bool> = Seq::empty();
    let ghost mut dropped: int = 0;
    let mut taken: usize = 0;
    let mut i: usize = 0;
    while i < samples.len()
        invariant
            taken <= i <= samples@.len(),
            producer_capacity(*p) == producer_capacity(*old(p)),
            v0 == cached_vacant(*old(p)),
            before == cached_items(*old(p)),
            i <= v0 ==> taken == i && cached_vacant(*p) == v0 - i && cached_items(*p)
                == cached_items(*old(p)) + samples@.take(i as int) && dropped == 0,
            taken >= if i <= v0 { i as int } else { v0 as int },
            accepted.len() == i,
            forall|j: int| 0 <= j < i && j < v0 ==> accepted[j],
            taken == kept_of(samples@.take(i as int), accepted).len(),
            0 <= dropped <= before.len() + taken,
            cached_items(*p) == (before + kept_of(samples@.take(i as int), accepted)).skip(dropped),
        decreases samples@.len() - i,
    {
        let ghost kept = kept_of(samples@.take(i as int), accepted);
        let ghost cur = cached_items(*p);
        let x = samples[i];
        let pushed = try_push(p, x);
        if pushed.is_ok() {
            taken = taken + 1;
        }
        proof {
            let base = before + kept;
            let b = pushed is Ok;
            if i < v0 {
                assert(cached_items(*p) =~= (base.push(x)).skip(dropped));
            } else if b {
                let k = choose|k: int|
                    0 <= k <= cur.len() && #[trigger] cur.push(x).skip(k) == cached_items(*p);
                assert(cur.push(x).skip(k) =~= base.push(x).skip(dropped + k));
                dropped = dropped + k;
            } else {
                let k = choose|k: int|
                    0 <= k <= cur.len() && #[trigger] cur.skip(k) == cached_items(*p);
                assert(cur.skip(k) =~= base.skip(dropped + k));
                dropped = dropped + k;
            }
            let t1 = samples@.take(i + 1);
            let a1 = accepted.push(b);
            assert(t1.drop_last() =~= samples@.take(i as int));
            assert(a1.drop_last() =~= accepted);
            assert(t1.last() == x);
            if b {
                assert(kept_of(t1, a1) == kept.push(x));
                assert(base.push(x) =~= before + kept_of(t1, a1));
            } else {
                assert(kept_of(t1, a1) == kept);
            }
            accepted = a1;
        }
        assert(samples@.take(i + 1) =~= samples@.take(i as int).push(samples@[i as int]));
        assert(i < v0 ==> cached_items(*p) =~= cached_items(*old(p)) + samples@.take(i + 1));
        i = i + 1;
    }
    assert(samples@.take(samples@.len() as int) =~= samples@);
    assert((before + kept_of(samples@, accepted)).skip(dropped) == cached_items(*p));
    taken
}

/// The sample to play for what the ring gave: the sample, or silence
/// (`+0.0`, all bits zero) when the ring ran dry.
pub open spec fn sample_or_silence(popped: Option<u32>) -> u32 {
    match popped {
        Some(x) => x,
        None => 0,
    }
}

/// The stereo frame to play for two takes from the ring: the left sample or
/// silence, and the right sample or, when the ring ran dry between the two,
/// the left one again.
pub open spec fn frame_of(left: Option<u32>, right: Option<u32>) -> (u32, u32) {
    let l = sample_or_silence(left);
    (
        l,
        match right {
            Some(x) => x,
            None => l,
        },
    )
}

/// See [`sample_or_silence`].
pub fn playback_sample(popped: Option<u32>) -> (r: u32)
    ensures
        r == sample_or_silence(popped),
{
    match popped {
        Some(x) => x,
        None => 0,
    }
}

/// See [`frame_of`].
pub fn playback_frame(left: Option<u32>, right: Option<u32>) -> (r: (u32, u32))
    ensures
        r == frame_of(left, right),
{
    let l = playback_sample(left);
    match right {
        Some(x) => (l, x),
        None => (l, l),
    }
}

/// The next sample to play: taken from the ring, or silence when it is
/// empty. While the consumer knows of samples, it is the eldest of them.
pub fn next_sample(c: &mut SampleConsumer) -> (r: u32)
    ensures
        consumer_capacity(*final(c)) == consumer_capacity(*old(c)),
        cached_samples(*old(c)).len() > 0 ==> r == cached_samples(*old(c))[0]
            && cached_samples(*final(c)) == cached_samples(*old(c)).drop_first(),
{
    playback_sample(try_pop(c))
}

/// The next stereo frame to play: two samples taken from the ring, in
/// order (see [`frame_of`] for a ring that runs dry). While the consumer
/// knows of samples, they are the eldest of them.
pub fn next_frame(c: &mut SampleConsumer) -> (r: (u32, u32))
    ensures
        consumer_capacity(*final(c)) == consumer_capacity(*old(c)),
        cached_samples(*old(c)).len() >= 1 ==> r.0 == cached_samples(*old(c))[0],
        cached_samples(*old(c)).len() >= 2 ==> r.1 == cached_samples(*old(c))[1]
            && cached_samples(*final(c)) == cached_samples(*old(c)).skip(2),
{
    let left = try_pop(c);
    let right = try_pop(c);
    playback_frame(left, right)
}

} // verus!
