//! The smoothing ring buffer: a fixed window of the most recent raw
//! samples of one channel, and their running average.
//!
//! The storage is heapless's history collection; Verus cannot read that
//! type (its storage parameter hides behind a private module of the
//! crate), so it sits in one opaque field and every operation on it goes
//! through a trusted wrapper whose contract states, over [`ring_contents`],
//! what heapless's source shows.  Everything above those wrappers — the
//! seeding, the sample-range invariant, the average and the window laws —
//! is verified.
//!
//! A buffer is owned by exactly one acquisition task and never shared, so
//! it needs no lock.

use vstd::arithmetic::div_mod::lemma_multiply_divide_le;
use vstd::prelude::*;

use crate::metrics::ADC_MAX;

verus! {

/// Number of slots of the smoothing window.
pub const SMOOTHING_CAPACITY: usize = 16;

/// Owns the outside crate's history collection.  The struct is opaque to
/// Verus; [`ring_contents`] names what it holds, oldest entry first.
#[verifier::external_body]
pub struct RingStore {
    buf: heapless::HistoryBuf<u16, 16>,
}

/// The entries the store holds, oldest first.
pub uninterp spec fn ring_contents(b: RingStore) -> Seq<u16>;

/// What one write does to the window: append, evicting the oldest entry
/// once the window is full.
pub open spec fn ring_write(s: Seq<u16>, v: u16) -> Seq<u16> {
    if s.len() < SMOOTHING_CAPACITY {
        s.push(v)
    } else {
        s.skip(1).push(v)
    }
}

impl RingStore {
    /// Relies on heapless::HistoryBuf::new: a fresh buffer holds no
    /// entries.
    #[verifier::external_body]
    fn new() -> (r: RingStore)
        ensures
            ring_contents(r) == Seq::<u16>::empty(),
    {
        RingStore { buf: heapless::HistoryBuf::new() }
    }

    /// Relies on heapless::HistoryBuf::write: stores the newest entry,
    /// overwriting the oldest one once all slots are filled.
    #[verifier::external_body]
    fn write(&mut self, value: u16)
        ensures
            ring_contents(*final(self)) == ring_write(ring_contents(*old(self)), value),
    {
        self.buf.write(value)
    }

    /// Relies on heapless::HistoryBuf::oldest_ordered: yields the entries
    /// oldest first.
    #[verifier::external_body]
    fn entries(&self) -> (r: Vec<u16>)
        ensures
            r@ == ring_contents(*self),
    {
        self.buf.oldest_ordered().copied().collect()
    }
}

/// Sum of a window, oldest entry peeled last.
pub open spec fn seq_sum(s: Seq<u16>) -> int
    decreases s.len(),
{
    if s.len() == 0 {
        0
    } else {
        seq_sum(s.drop_last()) + s.last()
    }
}

/// Arithmetic mean of a window, truncated.
pub open spec fn mean(s: Seq<u16>) -> int {
    seq_sum(s) / s.len() as int
}

proof fn lemma_seq_sum_take(s: Seq<u16>, i: int)
    requires
        0 <= i < s.len(),
    ensures
        seq_sum(s.take(i + 1)) == seq_sum(s.take(i)) + s[i],
{
    assert(s.take(i + 1).drop_last() =~= s.take(i));
    assert(s.take(i + 1).last() == s[i]);
}

proof fn lemma_seq_sum_bounds(s: Seq<u16>)
    requires
        forall|i: int| 0 <= i < s.len() ==> s[i] <= ADC_MAX,
    ensures
        0 <= seq_sum(s) <= s.len() * (ADC_MAX as int),
    decreases s.len(),
{
    if s.len() > 0 {
        assert(forall|i: int| 0 <= i < s.drop_last().len() ==> s.drop_last()[i] <= ADC_MAX);
        lemma_seq_sum_bounds(s.drop_last());
    }
}

/// The smoothing buffer itself: the opaque store plus the invariant that
/// it always holds at least the construction-time seed and only raw
/// samples in the converter's 12-bit range.
pub struct SmoothingBuffer {
    store: RingStore,
}

impl View for SmoothingBuffer {
    type V = Seq<u16>;

    closed spec fn view(&self) -> Seq<u16> {
        ring_contents(self.store)
    }
}

impl SmoothingBuffer {
    /// Well-formed: never empty (a seed is written at construction, and
    /// writes never shrink the window), never beyond the window size, and
    /// every entry is a raw 12-bit sample.
    pub open spec fn wf(&self) -> bool {
        &&& 1 <= self@.len() <= SMOOTHING_CAPACITY
        &&& forall|i: int| 0 <= i < self@.len() ==> self@[i] <= ADC_MAX
    }

    /// A fresh buffer holding one seed sample, so that the average is
    /// defined from the first request on.
    pub fn new(seed: u16) -> (r: SmoothingBuffer)
        requires
            seed <= ADC_MAX,
        ensures
            r.wf(),
            r@ == seq![seed],
    {
        let mut store = RingStore::new();
        store.write(seed);
        let r = SmoothingBuffer { store };
        proof {
            assert(r@ =~= seq![seed]);
        }
        r
    }

    /// Unconditionally inserts one sample; once the window is full, the
    /// oldest entry is evicted first.
    pub fn write(&mut self, sample: u16)
        requires
            old(self).wf(),
            sample <= ADC_MAX,
        ensures
            final(self).wf(),
            final(self)@ == ring_write(old(self)@, sample),
    {
        self.store.write(sample);
    }

    /// Number of samples currently held.
    pub fn len(&self) -> (n: usize)
        ensures
            n == self@.len(),
    {
        self.store.entries().len()
    }

    /// The truncated arithmetic mean of every sample currently held.  The
    /// buffer is never empty, so the mean is always defined; it never
    /// exceeds the largest raw sample.
    pub fn average(&self) -> (a: u16)
        requires
            self.wf(),
        ensures
            a == mean(self@),
            a <= ADC_MAX,
    {
        let v = self.store.entries();
        let n = v.len();
        let mut sum: u32 = 0;
        let mut i: usize = 0;
        while i < n
            invariant
                i <= n,
                n == v.len(),
                v@ == self@,
                self.wf(),
                sum == seq_sum(v@.take(i as int)),
                sum as int <= (i as int) * (ADC_MAX as int),
            decreases n - i,
        {
            proof {
                lemma_seq_sum_take(v@, i as int);
            }
            sum = sum + v[i] as u32;
            i = i + 1;
        }
        proof {
            assert(v@.take(n as int) =~= v@);
            lemma_seq_sum_bounds(v@);
            lemma_multiply_divide_le(sum as int, n as int, ADC_MAX as int);
        }
        (sum / n as u32) as u16
    }
}

/// The window after a whole sequence of writes, applied oldest first.
pub open spec fn ring_after(init: Seq<u16>, writes: Seq<u16>) -> Seq<u16>
    decreases writes.len(),
{
    if writes.len() == 0 {
        init
    } else {
        ring_after(ring_write(init, writes[0]), writes.skip(1))
    }
}

/// The last window-full of a sequence: the whole of it while it fits, its
/// final stretch once it does not.
pub open spec fn last_window(s: Seq<u16>) -> Seq<u16> {
    if s.len() <= SMOOTHING_CAPACITY {
        s
    } else {
        s.skip(s.len() - SMOOTHING_CAPACITY)
    }
}

/// The buffer is a strict FIFO window: whatever it held before, after any
/// sequence of writes it holds exactly the most recent window-full of
/// (previous contents, then the writes in write order).
pub proof fn lemma_ring_after_is_last_window(init: Seq<u16>, writes: Seq<u16>)
    requires
        init.len() <= SMOOTHING_CAPACITY,
    ensures
        ring_after(init, writes) == last_window(init + writes),
    decreases writes.len(),
{
    if writes.len() == 0 {
        assert(init + writes =~= init);
    } else {
        let first = ring_write(init, writes[0]);
        lemma_ring_after_is_last_window(first, writes.skip(1));
        if init.len() < SMOOTHING_CAPACITY {
            assert(init.push(writes[0]) + writes.skip(1) =~= init + writes);
        } else {
            let s = init + writes;
            assert(first + writes.skip(1) =~= s.skip(1));
            assert(last_window(s.skip(1)) =~= last_window(s));
        }
    }
}

/// On a fresh buffer seeded with one sample, up to a window-full of writes
/// leaves exactly the seed followed by the writes, the seed being evicted
/// only by the write that fills the window past it.  Together with
/// [`SmoothingBuffer::average`]'s contract, the average after those writes
/// is the truncated mean of the writes plus the still-present seed.
pub proof fn lemma_fresh_buffer_window(seed: u16, writes: Seq<u16>)
    requires
        writes.len() <= SMOOTHING_CAPACITY,
    ensures
        writes.len() < SMOOTHING_CAPACITY ==> ring_after(seq![seed], writes) == seq![seed]
            + writes,
        writes.len() == SMOOTHING_CAPACITY ==> ring_after(seq![seed], writes) == writes,
{
    lemma_ring_after_is_last_window(seq![seed], writes);
    if writes.len() == SMOOTHING_CAPACITY {
        assert(last_window(seq![seed] + writes) =~= writes);
    }
}

/// One write more than the window holds: the buffer keeps the last
/// window-full of the writes in write order, and the write made first —
/// if no later write repeats its value — is no longer present.
pub proof fn lemma_full_window_evicts_first(seed: u16, writes: Seq<u16>)
    requires
        writes.len() == SMOOTHING_CAPACITY + 1,
    ensures
        ring_after(seq![seed], writes) == writes.skip(1),
        (forall|i: int| 1 <= i < writes.len() ==> #[trigger] writes[i] != writes[0])
            ==> !ring_after(seq![seed], writes).contains(writes[0]),
{
    lemma_ring_after_is_last_window(seq![seed], writes);
    assert(last_window(seq![seed] + writes) =~= writes.skip(1));
    if forall|i: int| 1 <= i < writes.len() ==> #[trigger] writes[i] != writes[0] {
        assert forall|j: int| 0 <= j < writes.skip(1).len() implies writes.skip(1)[j]
            != writes[0] by {
            assert(writes.skip(1)[j] == writes[j + 1]);
        }
        assert(!writes.skip(1).contains(writes[0]));
    }
}

} // verus!
