//! A fixed-capacity, always-full history of the most recent audio samples.
//!
//! A sample is stored as the raw bit pattern of the device's `f32` reading;
//! the buffer only orders samples and never looks at their values.
use ringbuffer::AllocRingBuffer;
use ringbuffer::RingBuffer as _;
use vstd::prelude::*;

verus! {

#[verifier::external_type_specification]
#[verifier::external_body]
#[verifier::reject_recursive_types(T)]
pub struct ExAllocRingBuffer<T>(AllocRingBuffer<T>);

/// The samples held by a ring buffer, oldest first.
pub uninterp spec fn ring_contents(b: AllocRingBuffer<u32>) -> Seq<u32>;

/// The capacity a ring buffer was created with.
pub uninterp spec fn ring_capacity(b: AllocRingBuffer<u32>) -> nat;

/// The largest capacity a history may be created with: its allocation, the
/// next power of two of samples of four bytes, stays far below `isize::MAX`
/// on every target.
pub const MAX_CAPACITY: usize = 0x1000_0000;

/// Relies on `AllocRingBuffer::new`: an empty buffer of the given capacity
/// (it panics on zero, and when the allocation's layout would overflow).
#[verifier::external_body]
fn alloc_ring(capacity: usize) -> (r: AllocRingBuffer<u32>)
    requires
        0 < capacity <= MAX_CAPACITY,
    ensures
        ring_contents(r) == Seq::<u32>::empty(),
        ring_capacity(r) == capacity,
{
    AllocRingBuffer::new(capacity)
}

/// Relies on `RingBuffer::fill` of `AllocRingBuffer`: every slot up to the
/// capacity is set to `value`.
#[verifier::external_body]
fn ring_fill(b: &mut AllocRingBuffer<u32>, value: u32)
    ensures
        ring_capacity(*final(b)) == ring_capacity(*old(b)),
        ring_contents(*final(b)) == Seq::new(ring_capacity(*old(b)), |i: int| value),
{
    b.fill(value)
}

/// Relies on `RingBuffer::push` of `AllocRingBuffer`: appends at the back and,
/// when the buffer is full, first drops the oldest element.
#[verifier::external_body]
fn ring_push(b: &mut AllocRingBuffer<u32>, value: u32)
    ensures
        ring_capacity(*final(b)) == ring_capacity(*old(b)),
        ring_contents(*old(b)).len() == ring_capacity(*old(b)) ==> ring_contents(*final(b))
            == ring_contents(*old(b)).drop_first().push(value),
        ring_contents(*old(b)).len() < ring_capacity(*old(b)) ==> ring_contents(*final(b))
            == ring_contents(*old(b)).push(value),
{
    b.push(value)
}

/// Relies on `RingBuffer::to_vec` of `AllocRingBuffer`: a copy of the
/// contents, oldest first.
#[verifier::external_body]
fn ring_to_vec(b: &AllocRingBuffer<u32>) -> (r: Vec<u32>)
    ensures
        r@ == ring_contents(*b),
{
    b.to_vec()
}

/// What a full history of `capacity` samples holds after `samples` are
/// written to it, one at a time, each evicting the oldest.
pub open spec fn after_writes(history: Seq<u32>, samples: Seq<u32>) -> Seq<u32>
    decreases samples.len(),
{
    if samples.len() == 0 {
        history
    } else {
        after_writes(history.drop_first().push(samples[0]), samples.drop_first())
    }
}

/// `p` is a power of two.
pub open spec fn is_power_of_two(p: nat) -> bool
    decreases p,
{
    if p <= 1 {
        p == 1
    } else {
        p % 2 == 0 && is_power_of_two(p / 2)
    }
}

/// Writing to a full history keeps the newest samples of the history
/// followed by everything written: a window of its length that ends at the
/// last sample written.
pub proof fn lemma_after_writes_window(history: Seq<u32>, samples: Seq<u32>)
    requires
        history.len() > 0,
    ensures
        after_writes(history, samples) == (history + samples).subrange(
            samples.len() as int,
            (samples.len() + history.len()) as int,
        ),
    decreases samples.len(),
{
    if samples.len() == 0 {
        assert((history + samples).subrange(0, history.len() as int) =~= history);
    } else {
        let next = history.drop_first().push(samples[0]);
        lemma_after_writes_window(next, samples.drop_first());
        assert((next + samples.drop_first()) =~= (history + samples).drop_first());
        assert((next + samples.drop_first()).subrange(
            samples.len() - 1,
            samples.len() - 1 + next.len(),
        ) =~= (history + samples).subrange(samples.len() as int, (samples.len() + history.len()) as int));
    }
}

/// First-in first-out: once at least a full history's worth of samples has
/// been written (its capacity plus any k more), the history holds exactly
/// the last capacity samples written, in the order they were written, and
/// its length is still the capacity.
pub proof fn lemma_fifo(history: Seq<u32>, samples: Seq<u32>)
    requires
        history.len() > 0,
        samples.len() >= history.len(),
    ensures
        after_writes(history, samples).len() == history.len(),
        after_writes(history, samples) == samples.subrange(
            samples.len() - history.len(),
            samples.len() as int,
        ),
{
    lemma_after_writes_window(history, samples);
    assert((history + samples).subrange(samples.len() as int, (samples.len() + history.len()) as int)
        =~= samples.subrange(samples.len() - history.len(), samples.len() as int));
}

/// The capacity of a sample history that covers five seconds at
/// `sample_rate`: the smallest power of two not below five times the rate.
pub fn capacity_for_rate(sample_rate: u32) -> (r: u64)
    ensures
        is_power_of_two(r as nat),
        r >= 5 * sample_rate,
        r == 1 || r / 2 < 5 * sample_rate,
{
    let n: u64 = 5 * sample_rate as u64;
    let mut p: u64 = 1;
    assert(is_power_of_two(1));
    while p < n
        invariant
            n == 5 * sample_rate,
            is_power_of_two(p as nat),
            p == 1 || p / 2 < n,
            p <= 2 * n + 1,
        decreases 2 * n + 1 - p,
    {
        assert((2 * p) as nat / 2 == p as nat);
        p = p * 2;
    }
    p
}

/// A rolling history of audio samples that always holds exactly its capacity.
pub struct SampleBuffer {
    buf: AllocRingBuffer<u32>,
    capacity: usize,
}

impl SampleBuffer {
    /// The samples held, oldest first.
    pub closed spec fn view(&self) -> Seq<u32> {
        ring_contents(self.buf)
    }

    pub closed spec fn spec_capacity(&self) -> nat {
        self.capacity as nat
    }

    /// The buffer is full: it holds exactly its capacity, which is positive.
    pub closed spec fn wf(&self) -> bool {
        &&& self.capacity > 0
        &&& ring_capacity(self.buf) == self.capacity
        &&& ring_contents(self.buf).len() == self.capacity
    }

    /// A history of `capacity` samples, all silent (zero).
    pub fn new(capacity: usize) -> (r: SampleBuffer)
        requires
            0 < capacity <= MAX_CAPACITY,
        ensures
            r.wf(),
            r.spec_capacity() == capacity,
            r@ == Seq::new(capacity as nat, |i: int| 0u32),
    {
        let mut buf = alloc_ring(capacity);
        ring_fill(&mut buf, 0);
        let r = SampleBuffer { buf, capacity };
        proof {
            assert(r@ =~= Seq::new(capacity as nat, |i: int| 0u32));
        }
        r
    }

    /// The capacity, which is also the number of samples always held.
    pub fn capacity(&self) -> (r: usize)
        ensures
            r == self.spec_capacity(),
    {
        self.capacity
    }

    /// Appends one sample, evicting the oldest.
    pub fn write(&mut self, sample: u32)
        requires
            old(self).wf(),
        ensures
            final(self).wf(),
            final(self).spec_capacity() == old(self).spec_capacity(),
            final(self)@ == old(self)@.drop_first().push(sample),
    {
        ring_push(&mut self.buf, sample);
    }

    /// Appends each of `samples` in order, evicting as many of the oldest.
    pub fn write_all(&mut self, samples: &Vec<u32>)
        requires
            old(self).wf(),
        ensures
            final(self).wf(),
            final(self).spec_capacity() == old(self).spec_capacity(),
            final(self)@ == after_writes(old(self)@, samples@),
    {
        let mut i: usize = 0;
        assert(samples@.skip(0) =~= samples@);
        while i < samples.len()
            invariant
                self.wf(),
                self.spec_capacity() == old(self).spec_capacity(),
                i <= samples@.len(),
                after_writes(self@, samples@.skip(i as int)) == after_writes(old(self)@, samples@),
            decreases samples@.len() - i,
        {
            let ghost before = self@;
            self.write(samples[i]);
            proof {
                let rest = samples@.skip(i as int);
                assert(rest[0] == samples@[i as int]);
                assert(rest.drop_first() =~= samples@.skip(i + 1));
            }
            i = i + 1;
        }
        proof {
            assert(samples@.skip(i as int) =~= Seq::<u32>::empty());
        }
    }

    /// A copy of the samples held, oldest first.
    pub fn snapshot(&self) -> (r: Vec<u32>)
        requires
            self.wf(),
        ensures
            r@ == self@,
            r@.len() == self.spec_capacity(),
    {
        ring_to_vec(&self.buf)
    }

    /// A copy of the newest `n` samples, oldest first.
    pub fn latest(&self, n: usize) -> (r: Vec<u32>)
        requires
            self.wf(),
            n <= self.spec_capacity(),
        ensures
            r@ == self@.subrange(self@.len() - n, self@.len() as int),
            r@.len() == n,
    {
        let all = ring_to_vec(&self.buf);
        let start: usize = all.len() - n;
        let mut r: Vec<u32> = Vec::with_capacity(n);
        let mut i: usize = start;
        while i < all.len()
            invariant
                all@ == self@,
                start == all@.len() - n,
                start <= i <= all@.len(),
                r@ == all@.subrange(start as int, i as int),
            decreases all@.len() - i,
        {
            r.push(all[i]);
            i = i + 1;
            assert(r@ =~= all@.subrange(start as int, i as int));
        }
        r
    }

    /// A well-formed buffer holds exactly its capacity, which is positive.
    pub proof fn lemma_full(&self)
        requires
            self.wf(),
        ensures
            self.spec_capacity() > 0,
            self@.len() == self.spec_capacity(),
    {
    }
}

} // verus!
