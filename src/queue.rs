//! Bounded FIFO of samples connecting the capture callback to the playback
//! callback. A sample travels as the 32-bit pattern of its value, so the
//! queue copies samples exactly without ever interpreting them.
use ringbuf::{HeapConsumer, HeapProducer, HeapRb, Rb};
use vstd::math::min;
use vstd::prelude::*;

verus! {

/// ringbuf's heap ring buffer of sample patterns. Verus does not take the
/// declaration of `SharedRb` itself (its parameter is bound by ringbuf's own
/// `Container` trait), so the buffer is held here, out of Verus's sight, and
/// is reached only through the functions below.
#[verifier::external_body]
pub struct SampleRing {
    rb: HeapRb<u32>,
}

/// The samples held by a ring buffer, oldest first.
pub uninterp spec fn rb_items(rb: SampleRing) -> Seq<u32>;

/// The fixed number of samples a ring buffer can hold.
pub uninterp spec fn rb_capacity(rb: SampleRing) -> nat;

/// Relies on ringbuf's `HeapRb::new`: an empty buffer of the given capacity
/// (it panics on a capacity of zero).
#[verifier::external_body]
fn rb_new(capacity: usize) -> (rb: SampleRing)
    requires
        capacity > 0,
    ensures
        rb_items(rb) == Seq::<u32>::empty(),
        rb_capacity(rb) == capacity,
{
    SampleRing { rb: HeapRb::new(capacity) }
}

/// Relies on ringbuf's `Rb::len`: the number of samples stored, never more
/// than the capacity.
#[verifier::external_body]
fn rb_len(rb: &SampleRing) -> (n: usize)
    ensures
        n == rb_items(*rb).len(),
        n <= rb_capacity(*rb),
{
    rb.rb.len()
}

/// Relies on ringbuf's `Rb::free_len`: the number of places left, the
/// capacity less the samples stored.
#[verifier::external_body]
fn rb_free_len(rb: &SampleRing) -> (n: usize)
    ensures
        n == rb_capacity(*rb) - rb_items(*rb).len(),
{
    rb.rb.free_len()
}

/// Relies on ringbuf's `Rb::push_slice`: appends all of `elems` at the back
/// (it panics when they do not fit).
#[verifier::external_body]
fn rb_push_slice(rb: &mut SampleRing, elems: &[u32])
    requires
        rb_items(*old(rb)).len() + elems@.len() <= rb_capacity(*old(rb)),
    ensures
        rb_items(*final(rb)) == rb_items(*old(rb)) + elems@,
        rb_capacity(*final(rb)) == rb_capacity(*old(rb)),
{
    rb.rb.push_slice(elems)
}

/// Relies on ringbuf's `Rb::pop_slice`: removes the oldest `elems.len()`
/// samples and writes them into `elems` in order (it panics when fewer are
/// stored).
#[verifier::external_body]
fn rb_pop_slice(rb: &mut SampleRing, elems: &mut [u32])
    requires
        old(elems)@.len() <= rb_items(*old(rb)).len(),
    ensures
        final(elems)@ == rb_items(*old(rb)).take(old(elems)@.len() as int),
        rb_items(*final(rb)) == rb_items(*old(rb)).skip(old(elems)@.len() as int),
        rb_capacity(*final(rb)) == rb_capacity(*old(rb)),
{
    rb.rb.pop_slice(elems)
}

/// The sending end of a ring buffer after it was split, for the capture
/// thread alone.
#[verifier::external_body]
pub struct SampleProducer {
    p: HeapProducer<u32>,
}

/// The receiving end of a ring buffer after it was split, for the playback
/// thread alone.
#[verifier::external_body]
pub struct SampleConsumer {
    c: HeapConsumer<u32>,
}

/// Relies on ringbuf's `SharedRb::split`: the two ends of one buffer.
#[verifier::external_body]
fn rb_split(rb: SampleRing) -> (ends: (SampleProducer, SampleConsumer)) {
    let (p, c) = rb.rb.split();
    (SampleProducer { p }, SampleConsumer { c })
}

/// Relies on ringbuf's `Producer::push_slice`: it appends a prefix of `elems`
/// and returns its length. What space is left depends on the other thread,
/// so only the bound is known here.
#[verifier::external_body]
fn producer_push_slice(p: &mut SampleProducer, elems: &[u32]) -> (n: usize)
    ensures
        n <= elems@.len(),
{
    p.p.push_slice(elems)
}

/// Relies on ringbuf's `Consumer::pop_slice`: it fills a prefix of `elems`
/// with the oldest samples and returns its length, leaving the rest of
/// `elems` as it was.
#[verifier::external_body]
fn consumer_pop_slice(c: &mut SampleConsumer, elems: &mut [u32]) -> (n: usize)
    ensures
        n <= old(elems)@.len(),
        final(elems)@.len() == old(elems)@.len(),
        final(elems)@.skip(n as int) == old(elems)@.skip(n as int),
{
    c.c.pop_slice(elems)
}

/// The pattern of a zero-valued sample, written where playback has nothing
/// to play.
pub const SILENCE: u32 = 0;

/// Writes `SILENCE` over `out` from index `from` on.
pub fn fill_silence(out: &mut [u32], from: usize)
    requires
        from <= old(out)@.len(),
    ensures
        final(out)@.len() == old(out)@.len(),
        final(out)@.take(from as int) == old(out)@.take(from as int),
        forall|i: int| from <= i < final(out)@.len() ==> final(out)@[i] == SILENCE,
{
    let mut i: usize = from;
    while i < out.len()
        invariant
            from <= i <= out@.len(),
            out@.len() == old(out)@.len(),
            out@.take(from as int) == old(out)@.take(from as int),
            forall|j: int| from <= j < i ==> out@[j] == SILENCE,
        decreases out@.len() - i,
    {
        out[i] = SILENCE;
        proof {
            assert(out@.take(from as int) =~= old(out)@.take(from as int));
        }
        i = i + 1;
    }
}

impl SampleProducer {
    /// Hands one block of captured samples to the queue and returns how many
    /// it took. What does not fit is dropped: the capture callback never
    /// waits for room.
    pub fn push(&mut self, samples: &[u32]) -> (n: usize)
        ensures
            n <= samples@.len(),
    {
        producer_push_slice(self, samples)
    }
}

impl SampleConsumer {
    /// Fills `out` for one playback callback: the samples waiting in the
    /// queue go first, oldest first, and whatever they leave is set to
    /// `SILENCE`. Returns how many samples came from the queue.
    pub fn pop(&mut self, out: &mut [u32]) -> (n: usize)
        ensures
            n <= old(out)@.len(),
            final(out)@.len() == old(out)@.len(),
            forall|i: int| n <= i < final(out)@.len() ==> final(out)@[i] == SILENCE,
    {
        let n = consumer_pop_slice(self, out);
        fill_silence(out, n);
        n
    }
}

/// A fixed-capacity FIFO of samples.
pub struct SampleQueue {
    rb: SampleRing,
    accepted: Ghost<Seq<u32>>,
    delivered: Ghost<Seq<u32>>,
}

impl SampleQueue {
    /// The samples waiting in the queue, oldest first.
    pub closed spec fn items(&self) -> Seq<u32> {
        rb_items(self.rb)
    }

    pub closed spec fn capacity(&self) -> nat {
        rb_capacity(self.rb)
    }

    /// Every sample the queue has taken in, in order of arrival.
    pub closed spec fn accepted(&self) -> Seq<u32> {
        self.accepted@
    }

    /// Every sample the queue has handed out, in order of departure.
    pub closed spec fn delivered(&self) -> Seq<u32> {
        self.delivered@
    }

    pub open spec fn wf(&self) -> bool {
        &&& self.capacity() > 0
        &&& self.items().len() <= self.capacity()
        &&& self.delivered() + self.items() == self.accepted()
    }

    /// What `pop` does: `before` becomes `after`, the destination `d0`
    /// becomes `d1`, and `n` samples are moved.
    pub open spec fn popped(before: SampleQueue, after: SampleQueue, d0: Seq<u32>, d1: Seq<u32>, n: usize) -> bool {
        &&& after.wf()
        &&& n == min(d0.len() as int, before.items().len() as int)
        &&& d1 == before.items().take(n as int) + d0.skip(n as int)
        &&& after.items() == before.items().skip(n as int)
        &&& after.delivered() == before.delivered() + before.items().take(n as int)
        &&& after.accepted() == before.accepted()
        &&& after.capacity() == before.capacity()
    }

    pub fn new(capacity: usize) -> (q: SampleQueue)
        requires
            capacity > 0,
        ensures
            q.wf(),
            q.items() == Seq::<u32>::empty(),
            q.accepted() == Seq::<u32>::empty(),
            q.delivered() == Seq::<u32>::empty(),
            q.capacity() == capacity,
    {
        let q = SampleQueue {
            rb: rb_new(capacity),
            accepted: Ghost(Seq::empty()),
            delivered: Ghost(Seq::empty()),
        };
        proof {
            assert(q.delivered() + q.items() =~= q.accepted());
        }
        q
    }

    /// The number of samples waiting.
    pub fn len(&self) -> (n: usize)
        ensures
            n == self.items().len(),
            n <= self.capacity(),
    {
        rb_len(&self.rb)
    }

    /// Appends as many of `samples` as fit in the remaining space and returns
    /// how many were taken; the rest are dropped.
    pub fn push(&mut self, samples: &[u32]) -> (n: usize)
        requires
            old(self).wf(),
        ensures
            final(self).wf(),
            n == min(samples@.len() as int, old(self).capacity() - old(self).items().len()),
            final(self).items() == old(self).items() + samples@.take(n as int),
            final(self).accepted() == old(self).accepted() + samples@.take(n as int),
            final(self).delivered() == old(self).delivered(),
            final(self).capacity() == old(self).capacity(),
    {
        let free = rb_free_len(&self.rb);
        let n: usize = if samples.len() < free { samples.len() } else { free };
        let part = &samples[0..n];
        rb_push_slice(&mut self.rb, part);
        proof {
            assert(part@ == samples@.take(n as int));
            self.accepted@ = self.accepted@ + part@;
            assert(self.delivered() + self.items() =~= self.accepted());
        }
        n
    }

    /// Moves the oldest samples into the front of `dest`, as many as are
    /// waiting and fit, and returns how many; the rest of `dest` is left as
    /// it was.
    pub fn pop(&mut self, dest: &mut [u32]) -> (n: usize)
        requires
            old(self).wf(),
        ensures
            SampleQueue::popped(*old(self), *final(self), old(dest)@, final(dest)@, n),
    {
        let len = rb_len(&self.rb);
        let n: usize = if dest.len() < len { dest.len() } else { len };
        let ghost before = dest@;
        let (head, tail) = dest.split_at_mut(n);
        rb_pop_slice(&mut self.rb, head);
        proof {
            assert(tail@ == before.skip(n as int));
            let waiting = old(self).items();
            self.delivered@ = self.delivered@ + waiting.take(n as int);
            assert(waiting.take(n as int) + waiting.skip(n as int) =~= waiting);
            assert(self.delivered() + self.items() =~= self.accepted());
        }
        n
    }

    /// Splits the queue into its sending and receiving ends, for the capture
    /// and the playback thread.
    pub fn split(self) -> (ends: (SampleProducer, SampleConsumer)) {
        rb_split(self.rb)
    }
}

/// A queue never hands out a sample it was not given: what it has delivered
/// is always the start of what it has accepted, in the same order, and no
/// longer than it.
pub proof fn lemma_delivered_is_prefix_of_accepted(q: &SampleQueue)
    requires
        q.wf(),
    ensures
        q.delivered().len() <= q.accepted().len(),
        q.delivered() == q.accepted().take(q.delivered().len() as int),
{
    assert(q.accepted().take(q.delivered().len() as int) =~= q.delivered());
}

/// Popping from an empty queue moves nothing: it returns 0 and leaves the
/// destination as it was.
pub proof fn lemma_pop_empty_moves_nothing(
    before: SampleQueue,
    after: SampleQueue,
    d0: Seq<u32>,
    d1: Seq<u32>,
    n: usize,
)
    requires
        before.items().len() == 0,
        SampleQueue::popped(before, after, d0, d1, n),
    ensures
        n == 0,
        d1 == d0,
        after.items().len() == 0,
{
    assert(d1 =~= d0);
}

} // verus!
