//! Preallocated per-channel sample arrays that the audio path writes and
//! reads without allocating.

use vstd::prelude::*;

verus! {

/// `CHANNELS` arrays of `BUFFER_SIZE` samples each, with the number of
/// samples of a channel that are in use.
pub struct Sync2DArray<T: Copy, const CHANNELS: usize, const BUFFER_SIZE: usize> {
    data: [[T; BUFFER_SIZE]; CHANNELS],
    buffer_size: usize,
}

impl<T: Copy, const CHANNELS: usize, const BUFFER_SIZE: usize> View for Sync2DArray<
    T,
    CHANNELS,
    BUFFER_SIZE,
> {
    type V = Seq<Seq<T>>;

    /// The samples, channel by channel.
    closed spec fn view(&self) -> Seq<Seq<T>> {
        Seq::new(CHANNELS as nat, |c: int| self.data@[c]@)
    }
}

impl<T: Copy, const CHANNELS: usize, const BUFFER_SIZE: usize> Sync2DArray<
    T,
    CHANNELS,
    BUFFER_SIZE,
> {
    /// The number of samples of each channel that are in use: never more
    /// than a channel has.
    pub closed spec fn spec_buffer_size(self) -> usize {
        if self.buffer_size <= BUFFER_SIZE {
            self.buffer_size
        } else {
            BUFFER_SIZE
        }
    }

    /// What a read of the array gives: the array laid out channel after
    /// channel, cut off after as many samples as are in use in all channels
    /// together.
    pub open spec fn spec_read(self) -> Seq<T> {
        Seq::new(
            self.spec_buffer_size() as nat * CHANNELS as nat,
            |k: int| self@[k / (BUFFER_SIZE as int)][k % (BUFFER_SIZE as int)],
        )
    }

    /// Every channel has `BUFFER_SIZE` samples, of which at most all are
    /// in use.
    pub proof fn lemma_shape(self)
        ensures
            self@.len() == CHANNELS,
            forall|c: int| 0 <= c < CHANNELS ==> (#[trigger] self@[c]).len() == BUFFER_SIZE,
    {
    }

    /// An array whose samples all hold `default`, with `buffer_size` of them
    /// in use in each channel, or all if a channel has fewer.
    pub fn new(default: T, buffer_size: usize) -> (array: Self)
        ensures
            array.spec_buffer_size() == if buffer_size <= BUFFER_SIZE {
                buffer_size
            } else {
                BUFFER_SIZE
            },
            array@ == Seq::new(
                CHANNELS as nat,
                |c: int| Seq::new(BUFFER_SIZE as nat, |i: int| default),
            ),
    {
        let array = Sync2DArray { data: [[default; BUFFER_SIZE]; CHANNELS], buffer_size };
        proof {
            assert forall|c: int| 0 <= c < CHANNELS implies #[trigger] array@[c] == Seq::new(
                BUFFER_SIZE as nat,
                |i: int| default,
            ) by {
                assert(array.data@[c]@ =~= Seq::new(BUFFER_SIZE as nat, |i: int| default));
            }
            assert(array@ =~= Seq::new(
                CHANNELS as nat,
                |c: int| Seq::new(BUFFER_SIZE as nat, |i: int| default),
            ));
        }
        array
    }

    pub fn buffer_size(&self) -> (size: usize)
        ensures
            size == self.spec_buffer_size(),
            size <= BUFFER_SIZE,
    {
        if self.buffer_size <= BUFFER_SIZE {
            self.buffer_size
        } else {
            BUFFER_SIZE
        }
    }

    /// Copies out the front of the array, laid out channel after channel:
    /// as many samples as are in use in all channels together.
    pub fn read(&self) -> (samples: Vec<T>)
        ensures
            samples@ == self.spec_read(),
    {
        let size = self.buffer_size();
        assert(size * CHANNELS <= 0xFFFF_FFFF_FFFF_FFFF * 0xFFFF_FFFF_FFFF_FFFF) by (nonlinear_arith)
            requires
                size <= 0xFFFF_FFFF_FFFF_FFFF,
                CHANNELS <= 0xFFFF_FFFF_FFFF_FFFF,
        ;
        let total: u128 = size as u128 * CHANNELS as u128;
        let mut samples: Vec<T> = Vec::new();
        let mut c: usize = 0;
        while c < CHANNELS && (samples.len() as u128) < total
            invariant
                c <= CHANNELS,
                size == self.spec_buffer_size(),
                size <= BUFFER_SIZE,
                total == size as nat * CHANNELS as nat,
                samples@.len() <= total,
                samples@.len() == total || samples@.len() == BUFFER_SIZE as nat * c as nat,
                forall|k: int|
                    0 <= k < samples@.len() ==> samples@[k] == self@[k / (BUFFER_SIZE as int)][k % (
                    BUFFER_SIZE as int)],
            decreases CHANNELS - c,
        {
            let mut i: usize = 0;
            while i < BUFFER_SIZE && (samples.len() as u128) < total
                invariant
                    c < CHANNELS,
                    i <= BUFFER_SIZE,
                    size <= BUFFER_SIZE,
                    total == size as nat * CHANNELS as nat,
                    samples@.len() <= total,
                    samples@.len() == total || samples@.len() == BUFFER_SIZE as nat * c as nat
                        + i as nat,
                    forall|k: int|
                        0 <= k < samples@.len() ==> samples@[k] == self@[k / (
                        BUFFER_SIZE as int)][k % (BUFFER_SIZE as int)],
                decreases BUFFER_SIZE - i,
            {
                let ghost before = samples@;
                samples.push(self.data[c][i]);
                proof {
                    let k = BUFFER_SIZE as int * c as int + i as int;
                    assert(before.len() == k) by (nonlinear_arith)
                        requires
                            before.len() == BUFFER_SIZE as nat * c as nat + i as nat,
                            k == BUFFER_SIZE as int * c as int + i as int,
                    ;
                    assert(k / (BUFFER_SIZE as int) == c && k % (BUFFER_SIZE as int) == i)
                        by (nonlinear_arith)
                        requires
                            k == BUFFER_SIZE as int * c as int + i as int,
                            0 <= i < BUFFER_SIZE,
                            0 <= c,
                    ;
                    assert(self@[c as int][i as int] == self.data@[c as int]@[i as int]);
                }
                i += 1;
            }
            proof {
                if samples@.len() != total {
                    assert(i == BUFFER_SIZE);
                    assert(BUFFER_SIZE as nat * c as nat + BUFFER_SIZE as nat == BUFFER_SIZE as nat
                        * (c + 1) as nat) by (nonlinear_arith);
                }
            }
            c += 1;
        }
        proof {
            if samples@.len() != total {
                assert(c == CHANNELS);
                assert(size as nat * CHANNELS as nat <= BUFFER_SIZE as nat * CHANNELS as nat)
                    by (nonlinear_arith)
                    requires
                        size <= BUFFER_SIZE,
                ;
                assert(false);
            }
        }
        assert(samples@ =~= self.spec_read());
        samples
    }

    /// Stores one sample.
    pub fn write(&mut self, channel: usize, idx: usize, sample: T)
        requires
            channel < CHANNELS,
            idx < BUFFER_SIZE,
        ensures
            final(self)@ == old(self)@.update(
                channel as int,
                old(self)@[channel as int].update(idx as int, sample),
            ),
            final(self).spec_buffer_size() == old(self).spec_buffer_size(),
    {
        self.data[channel][idx] = sample;
        proof {
            assert(self@ =~= old(self)@.update(
                channel as int,
                old(self)@[channel as int].update(idx as int, sample),
            ));
        }
    }

    /// One sample.
    pub fn get(&self, channel: usize, idx: usize) -> (sample: T)
        requires
            channel < CHANNELS,
            idx < BUFFER_SIZE,
        ensures
            sample == self@[channel as int][idx as int],
    {
        self.data[channel][idx]
    }

    /// The samples of one channel.
    pub fn as_ref(&self, channel: usize) -> (samples: &[T; BUFFER_SIZE])
        requires
            channel < CHANNELS,
        ensures
            samples@ == self@[channel as int],
    {
        &self.data[channel]
    }

    /// The samples of one channel, to be written in place.
    pub fn as_mut_ref(&mut self, channel: usize) -> (samples: &mut [T; BUFFER_SIZE])
        requires
            channel < CHANNELS,
        ensures
            samples@ == old(self)@[channel as int],
            final(self)@ =~= old(self)@.update(channel as int, final(samples)@),
            final(self).spec_buffer_size() == old(self).spec_buffer_size(),
    {
        &mut self.data[channel]
    }
}

} // verus!
