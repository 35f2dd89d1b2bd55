//! The bounded queue of interleaved output samples between the capture side
//! and the output side.
//!
//! Samples are 32-bit floats held as their bit patterns; the bit pattern
//! zero is silence.

use crate::scratch::Sync2DArray;
use ringbuf::traits::Consumer;
use ringbuf::traits::Observer;
use ringbuf::traits::Producer;
use vstd::prelude::*;

verus! {

/// The bit pattern of a silent sample.
pub const SILENCE: u32 = 0;

/// The largest capacity that a ring is made with.
pub const MAX_RING_CAPACITY: usize = 0x100_0000;

/// A heap-allocated ring buffer of the `ringbuf` crate, not split into its
/// two ends.
#[verifier::external_body]
pub struct SampleRing {
    inner: ringbuf::HeapRb<u32>,
}

/// The samples that a ring holds, oldest first.
pub uninterp spec fn ring_items(ring: SampleRing) -> Seq<u32>;

/// The capacity that a ring was made with.
pub uninterp spec fn ring_capacity(ring: SampleRing) -> nat;

/// `HeapRb::new` of `ringbuf`: an empty ring of the given capacity. It
/// panics on a capacity of zero, and allocates four bytes per sample.
#[verifier::external_body]
fn ring_new(capacity: usize) -> (ring: SampleRing)
    requires
        0 < capacity <= MAX_RING_CAPACITY,
    ensures
        ring_items(ring) == Seq::<u32>::empty(),
        ring_capacity(ring) == capacity,
{
    SampleRing { inner: ringbuf::HeapRb::<u32>::new(capacity) }
}

/// `Producer::try_push` of `ringbuf` on a whole ring: appends the sample
/// unless the ring is full, and then hands it back.
#[verifier::external_body]
fn ring_try_push(ring: &mut SampleRing, sample: u32) -> (refused: Result<(), u32>)
    ensures
        ring_capacity(*final(ring)) == ring_capacity(*old(ring)),
        refused is Ok == (ring_items(*old(ring)).len() < ring_capacity(*old(ring))),
        refused is Ok ==> ring_items(*final(ring)) == ring_items(*old(ring)).push(sample),
        refused matches Err(back) ==> back == sample && ring_items(*final(ring)) == ring_items(
            *old(ring),
        ),
{
    ring.inner.try_push(sample)
}

/// `Consumer::try_pop` of `ringbuf` on a whole ring: removes and returns
/// the oldest sample, or returns nothing if the ring is empty.
#[verifier::external_body]
fn ring_try_pop(ring: &mut SampleRing) -> (sample: Option<u32>)
    ensures
        ring_capacity(*final(ring)) == ring_capacity(*old(ring)),
        sample is Some == (ring_items(*old(ring)).len() > 0),
        sample is Some ==> sample == Some(ring_items(*old(ring))[0]) && ring_items(*final(ring))
            == ring_items(*old(ring)).drop_first(),
        sample is None ==> ring_items(*final(ring)) == ring_items(*old(ring)),
{
    ring.inner.try_pop()
}

/// `Observer::occupied_len` of `ringbuf` on a whole ring: the number of
/// samples that it holds.
#[verifier::external_body]
fn ring_occupied_len(ring: &SampleRing) -> (len: usize)
    ensures
        len == ring_items(*ring).len(),
{
    ring.inner.occupied_len()
}

/// `Observer::capacity` of `ringbuf` on a whole ring.
#[verifier::external_body]
fn ring_capacity_of(ring: &SampleRing) -> (capacity: usize)
    ensures
        capacity == ring_capacity(*ring),
        capacity > 0,
{
    ring.inner.capacity().get()
}

/// The capacity of the ring for a block size and a channel count: twice
/// their product.
pub open spec fn spec_ring_capacity_for(block_size: nat, channels: nat) -> nat {
    2 * block_size * channels
}

/// How many more samples a ring takes.
pub open spec fn spec_free(ring: SampleRing) -> nat {
    if ring_items(ring).len() <= ring_capacity(ring) {
        (ring_capacity(ring) - ring_items(ring).len()) as nat
    } else {
        0
    }
}

/// The frames of a scratch array as the driver orders them: frame after
/// frame, and within a frame channel after channel.
pub open spec fn spec_interleave(samples: Seq<Seq<u32>>, channels: nat, frames: nat) -> Seq<u32> {
    Seq::new(frames * channels, |k: int| samples[k % channels as int][k / channels as int])
}

/// What a ring holds after a block was offered to it: as much of the block
/// as fitted, behind what it held.
pub open spec fn spec_after_push(items: Seq<u32>, free: nat, block: Seq<u32>) -> Seq<u32> {
    if block.len() <= free {
        items + block
    } else {
        items + block.take(free as int)
    }
}

/// What the output gets when `slots` samples are asked of a ring: its
/// oldest samples, in their order, then silence.
pub open spec fn spec_drained(items: Seq<u32>, slots: nat) -> Seq<u32> {
    Seq::new(
        slots,
        |i: int|
            if i < items.len() {
                items[i]
            } else {
                SILENCE
            },
    )
}

/// What a ring holds after `slots` samples were asked of it.
pub open spec fn spec_after_drain(items: Seq<u32>, slots: nat) -> Seq<u32> {
    if slots <= items.len() {
        items.skip(slots as int)
    } else {
        Seq::empty()
    }
}

impl SampleRing {
    /// The unread count of the ring does not exceed its capacity.
    pub open spec fn wf(self) -> bool {
        ring_items(self).len() <= ring_capacity(self)
    }

    /// An empty ring of the given capacity, or nothing for a capacity of
    /// zero or above `MAX_RING_CAPACITY`.
    pub fn new(capacity: usize) -> (ring: Option<SampleRing>)
        ensures
            ring is Some == (0 < capacity <= MAX_RING_CAPACITY),
            ring matches Some(r) ==> ring_items(r) == Seq::<u32>::empty() && ring_capacity(r)
                == capacity && r.wf(),
    {
        if 0 < capacity && capacity <= MAX_RING_CAPACITY {
            Some(ring_new(capacity))
        } else {
            None
        }
    }

    /// A ring for a block size and a channel count, with room for two
    /// blocks, or nothing if that is no capacity a ring is made with.
    pub fn for_block(block_size: usize, channels: usize) -> (ring: Option<SampleRing>)
        ensures
            ring is Some == (0 < spec_ring_capacity_for(block_size as nat, channels as nat)
                <= MAX_RING_CAPACITY),
            ring matches Some(r) ==> ring_items(r) == Seq::<u32>::empty() && ring_capacity(r)
                == spec_ring_capacity_for(block_size as nat, channels as nat) && r.wf(),
    {
        if block_size == 0 || channels == 0 || block_size > MAX_RING_CAPACITY || channels
            > MAX_RING_CAPACITY {
            proof {
                assert(2 * block_size as nat * channels as nat == 0 || 2 * block_size as nat
                    * channels as nat > MAX_RING_CAPACITY) by (nonlinear_arith)
                    requires
                        block_size == 0 || channels == 0 || block_size > MAX_RING_CAPACITY
                            || channels > MAX_RING_CAPACITY,
                ;
            }
            return None;
        }
        assert(2 * block_size * channels <= 2 * 0x100_0000 * 0x100_0000) by (nonlinear_arith)
            requires
                block_size <= 0x100_0000,
                channels <= 0x100_0000,
        ;
        let capacity: u64 = 2 * (block_size as u64) * (channels as u64);
        if capacity > MAX_RING_CAPACITY as u64 {
            return None;
        }
        assert(capacity > 0) by (nonlinear_arith)
            requires
                capacity == 2 * block_size * channels,
                block_size > 0,
                channels > 0,
        ;
        SampleRing::new(capacity as usize)
    }

    /// The number of unread samples.
    pub fn len(&self) -> (len: usize)
        ensures
            len == ring_items(*self).len(),
    {
        ring_occupied_len(self)
    }

    pub fn capacity(&self) -> (capacity: usize)
        ensures
            capacity == ring_capacity(*self),
    {
        ring_capacity_of(self)
    }

    /// Appends one sample, unless the ring is full. Returns whether it was
    /// appended.
    pub fn push(&mut self, sample: u32) -> (accepted: bool)
        ensures
            ring_capacity(*final(self)) == ring_capacity(*old(self)),
            accepted == (ring_items(*old(self)).len() < ring_capacity(*old(self))),
            ring_items(*final(self)) == if accepted {
                ring_items(*old(self)).push(sample)
            } else {
                ring_items(*old(self))
            },
            old(self).wf() ==> final(self).wf(),
    {
        ring_try_push(self, sample).is_ok()
    }

    /// Removes the oldest sample, if there is one.
    pub fn pop(&mut self) -> (sample: Option<u32>)
        ensures
            ring_capacity(*final(self)) == ring_capacity(*old(self)),
            sample == if ring_items(*old(self)).len() > 0 {
                Some(ring_items(*old(self))[0])
            } else {
                None
            },
            ring_items(*final(self)) == if ring_items(*old(self)).len() > 0 {
                ring_items(*old(self)).drop_first()
            } else {
                ring_items(*old(self))
            },
            old(self).wf() ==> final(self).wf(),
    {
        ring_try_pop(self)
    }

    /// Offers the first `frames` frames of `channels` channels of a scratch
    /// array to the ring, interleaved. What does not fit is dropped. Returns
    /// the number of samples that were dropped.
    pub fn push_frames<const C: usize, const N: usize>(
        &mut self,
        samples: &Sync2DArray<u32, C, N>,
        channels: usize,
        frames: usize,
    ) -> (dropped: usize)
        requires
            0 < channels <= C,
            frames <= N,
            frames * channels <= usize::MAX,
        ensures
            ring_capacity(*final(self)) == ring_capacity(*old(self)),
            ring_items(*final(self)) == spec_after_push(
                ring_items(*old(self)),
                spec_free(*old(self)),
                spec_interleave(samples@, channels as nat, frames as nat),
            ),
            dropped == if frames * channels <= spec_free(*old(self)) {
                0
            } else {
                frames * channels - spec_free(*old(self))
            },
            old(self).wf() ==> final(self).wf(),
    {
        let ghost block = spec_interleave(samples@, channels as nat, frames as nat);
        let ghost items = ring_items(*self);
        let ghost free = spec_free(*self);
        let mut dropped: usize = 0;
        let mut frame: usize = 0;
        proof {
            samples.lemma_shape();
            assert(items + block.take(0) =~= items);
            assert(0 * channels == 0) by (nonlinear_arith);
        }
        while frame < frames
            invariant
                0 < channels <= C,
                frame <= frames <= N,
                frames * channels <= usize::MAX,
                block == spec_interleave(samples@, channels as nat, frames as nat),
                items == ring_items(*old(self)),
                free == spec_free(*old(self)),
                ring_capacity(*self) == ring_capacity(*old(self)),
                samples@.len() == C,
                forall|c: int| 0 <= c < C ==> (#[trigger] samples@[c]).len() == N,
                frame * channels <= frames * channels,
                dropped == if frame * channels <= free {
                    0
                } else {
                    frame * channels - free
                },
                ring_items(*self) == if frame * channels <= free {
                    items + block.take(frame * channels)
                } else {
                    items + block.take(free as int)
                },
            decreases frames - frame,
        {
            let mut channel: usize = 0;
            proof {
                assert((frame + 1) * channels == frame * channels + channels) by (nonlinear_arith);
                assert((frame + 1) * channels <= frames * channels) by (nonlinear_arith)
                    requires
                        frame < frames,
                ;
            }
            while channel < channels
                invariant
                    0 < channels <= C,
                    channel <= channels,
                    frame < frames <= N,
                    frames * channels <= usize::MAX,
                    frame * channels + channels <= frames * channels,
                    block == spec_interleave(samples@, channels as nat, frames as nat),
                    items == ring_items(*old(self)),
                    free == spec_free(*old(self)),
                    ring_capacity(*self) == ring_capacity(*old(self)),
                    samples@.len() == C,
                    forall|c: int| 0 <= c < C ==> (#[trigger] samples@[c]).len() == N,
                    dropped == if frame * channels + channel <= free {
                        0
                    } else {
                        frame * channels + channel - free
                    },
                    ring_items(*self) == if frame * channels + channel <= free {
                        items + block.take(frame * channels + channel)
                    } else {
                        items + block.take(free as int)
                    },
                decreases channels - channel,
            {
                let sample = samples.get(channel, frame);
                let ghost k = frame * channels + channel;
                proof {
                    assert(k % channels as int == channel && k / channels as int == frame)
                        by (nonlinear_arith)
                        requires
                            k == frame * channels + channel,
                            0 <= channel < channels,
                            0 <= frame,
                    ;
                    assert(k < block.len());
                    assert(block[k] == sample);
                }
                let ghost before = ring_items(*self);
                let accepted = self.push(sample);
                if !accepted {
                    dropped = dropped + 1;
                }
                proof {
                    if k < free {
                        assert(before.len() == items.len() + k);
                        assert(accepted);
                        assert(block.take(k + 1) =~= block.take(k).push(sample));
                        assert(items + block.take(k + 1) =~= (items + block.take(k)).push(sample));
                    } else {
                        if k == free {
                            assert(block.take(k) =~= block.take(free as int));
                        }
                        assert(before.len() == items.len() + free);
                        assert(!accepted);
                    }
                }
                channel += 1;
            }
            frame += 1;
        }
        proof {
            assert(block.len() == frames * channels);
            assert(block.take(block.len() as int) =~= block);
        }
        dropped
    }

    /// Fills `out` with the oldest samples of the ring, in their order, and
    /// with silence where the ring has run empty. Returns the number of
    /// slots that were filled with silence.
    pub fn drain_into(&mut self, out: &mut [u32]) -> (silent: usize)
        ensures
            ring_capacity(*final(self)) == ring_capacity(*old(self)),
            final(out)@ == spec_drained(ring_items(*old(self)), old(out)@.len()),
            ring_items(*final(self)) == spec_after_drain(ring_items(*old(self)), old(out)@.len()),
            silent == if old(out)@.len() <= ring_items(*old(self)).len() {
                0
            } else {
                old(out)@.len() - ring_items(*old(self)).len()
            },
            old(self).wf() ==> final(self).wf(),
    {
        let ghost items = ring_items(*self);
        let slots = out.len();
        let mut silent: usize = 0;
        let mut i: usize = 0;
        proof {
            assert(items.skip(0) =~= items);
        }
        while i < slots
            invariant
                i <= slots,
                out@.len() == slots,
                slots == old(out)@.len(),
                items == ring_items(*old(self)),
                ring_capacity(*self) == ring_capacity(*old(self)),
                old(self).wf() ==> self.wf(),
                ring_items(*self) == spec_after_drain(items, i as nat),
                silent == if i <= items.len() {
                    0
                } else {
                    i - items.len()
                },
                forall|j: int| 0 <= j < i ==> out@[j] == spec_drained(items, slots as nat)[j],
            decreases slots - i,
        {
            let sample = self.pop();
            match sample {
                Some(value) => {
                    out[i] = value;
                    proof {
                        assert(items.skip(i as int)[0] == items[i as int]);
                        assert(items.skip(i as int).drop_first() =~= items.skip(i + 1));
                    }
                },
                None => {
                    out[i] = SILENCE;
                    silent = silent + 1;
                    proof {
                        if i < items.len() {
                            assert(items.skip(i as int).len() > 0);
                        }
                    }
                },
            }
            i += 1;
        }
        proof {
            assert(out@ =~= spec_drained(items, slots as nat));
        }
        silent
    }
}

/// Nothing is read twice and nothing is skipped: what is pushed while the
/// ring has room comes out in the order it went in, behind what the ring
/// held, and then the ring is empty.
pub proof fn lemma_ring_is_fifo(items: Seq<u32>, capacity: nat, block: Seq<u32>)
    requires
        items.len() + block.len() <= capacity,
    ensures
        ({
            let held = spec_after_push(items, (capacity - items.len()) as nat, block);
            let slots = items.len() + block.len();
            &&& held.len() <= capacity
            &&& spec_drained(held, slots) == items + block
            &&& spec_after_drain(held, slots) == Seq::<u32>::empty()
        }),
{
    let held = spec_after_push(items, (capacity - items.len()) as nat, block);
    let slots = items.len() + block.len();
    assert(spec_drained(held, slots) =~= items + block);
    assert(spec_after_drain(held, slots) =~= Seq::<u32>::empty());
}

/// Draining in two parts gives what draining at once gives.
pub proof fn lemma_drain_in_parts(items: Seq<u32>, first: nat, second: nat)
    ensures
        spec_drained(items, first) + spec_drained(spec_after_drain(items, first), second)
            == spec_drained(items, first + second),
        spec_after_drain(spec_after_drain(items, first), second) == spec_after_drain(
            items,
            first + second,
        ),
{
    assert(spec_drained(items, first) + spec_drained(spec_after_drain(items, first), second)
        =~= spec_drained(items, first + second));
    assert(spec_after_drain(spec_after_drain(items, first), second) =~= spec_after_drain(
        items,
        first + second,
    ));
}

/// The unread count never exceeds the capacity, whatever is offered, and an
/// overrun drops the newest samples only.
pub proof fn lemma_push_keeps_bound(items: Seq<u32>, capacity: nat, block: Seq<u32>)
    requires
        items.len() <= capacity,
    ensures
        ({
            let held = spec_after_push(items, (capacity - items.len()) as nat, block);
            &&& held.len() <= capacity
            &&& items.is_prefix_of(held)
            &&& held.is_prefix_of(items + block)
        }),
{
}

/// An empty ring gives silence only.
pub proof fn lemma_empty_ring_is_silent(slots: nat)
    ensures
        spec_drained(Seq::<u32>::empty(), slots) == Seq::new(slots, |i: int| SILENCE),
        spec_after_drain(Seq::<u32>::empty(), slots) == Seq::<u32>::empty(),
{
    assert(spec_drained(Seq::<u32>::empty(), slots) =~= Seq::new(slots, |i: int| SILENCE));
}

} // verus!
