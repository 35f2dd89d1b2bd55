//! The audio data path of one block: capture, plugin processing, sample
//! rate conversion, and the hand-over to the ring; and on the other side the
//! rendering of an output block from the ring.
//!
//! Samples are 32-bit floats held as their bit patterns. Scaling between
//! the driver's integers and floats, and the conversion of the sample rate
//! itself, are the caller's part.

use crate::processing::{
    AudioBusBuffers, HostParameterChanges, ProcessData, ProcessMode, SymbolicSampleSize, CHANNELS,
    MAX_BLOCK_SIZE,
};
use crate::ring::{
    ring_capacity, ring_items, spec_after_drain, spec_after_push, spec_drained, spec_free,
    spec_interleave, SampleRing, SILENCE,
};
use crate::scratch::Sync2DArray;
use vstd::prelude::*;

verus! {

/// The block size of the audio driver unless it is configured otherwise:
/// ten milliseconds at 48000 Hz.
pub const DEFAULT_BLOCK_SIZE: usize = 480;

/// Why a step of the data path was refused. A refused step changes nothing.
#[derive(Debug, Clone, Copy, PartialEq, Eq, Structural)]
pub enum PathError {
    /// The step does not follow the one before it.
    OutOfOrder,
    /// The block has more frames than a scratch array holds.
    BlockTooLarge,
    /// The converter reports more frames than twice the block, or more than
    /// a scratch array holds.
    TooManyFrames,
}

/// How far the block in flight has come.
#[derive(Debug, Clone, Copy, PartialEq, Eq, Structural)]
pub enum BlockPhase {
    /// No block is in flight.
    Idle,
    /// The captured frames are in the input array.
    Captured,
    /// The plugins have run; their result is in the output array.
    Processed,
    /// The converted frames are in the resampled array.
    Resampled,
}

/// The addresses that a process-data record points to. They are taken once,
/// when the engine is constructed.
#[derive(Debug, Clone, Copy, PartialEq, Eq, Structural)]
pub struct Wiring {
    /// The record of the input bus.
    pub inputs: usize,
    /// The record of the output bus.
    pub outputs: usize,
    /// The array of channel pointers of the input bus.
    pub input_channels: usize,
    /// The array of channel pointers of the output bus.
    pub output_channels: usize,
    /// The host's parameter changes object.
    pub input_parameter_changes: usize,
}

/// The capture side of the engine: the three scratch arrays, the records
/// that plugins are called with, and the block in flight.
pub struct AudioPath {
    pub input_data: Sync2DArray<u32, CHANNELS, MAX_BLOCK_SIZE>,
    pub output_data: Sync2DArray<u32, CHANNELS, MAX_BLOCK_SIZE>,
    pub resampled_data: Sync2DArray<u32, CHANNELS, MAX_BLOCK_SIZE>,
    pub in_bus: AudioBusBuffers,
    pub out_bus: AudioBusBuffers,
    pub input_params: HostParameterChanges,
    pub process_data: ProcessData,
    /// The number of channels of a frame.
    pub channels: usize,
    pub phase: BlockPhase,
    /// The number of frames of the block in flight.
    pub frames: usize,
    /// The number of frames that the converter made of them.
    pub resampled_frames: usize,
    /// The number of samples that were dropped because the ring was full.
    pub overruns: u64,
}

/// The output side of the engine.
#[derive(Debug, Clone, Copy, PartialEq, Eq, Structural)]
pub struct OutputPath {
    /// The number of slots that were filled with silence because the ring
    /// was empty.
    pub underruns: u64,
}

/// The channels of a scratch array after the first `frames` frames of an
/// interleaved block were stored in its first `channels` channels.
pub open spec fn spec_deinterleaved(
    before: Seq<Seq<u32>>,
    data: Seq<u32>,
    channels: nat,
    frames: nat,
) -> Seq<Seq<u32>> {
    Seq::new(
        before.len(),
        |c: int|
            Seq::new(
                before[c].len(),
                |i: int|
                    if c < channels && i < frames {
                        data[i * channels + c]
                    } else {
                        before[c][i]
                    },
            ),
    )
}

/// The channels of a scratch array after the first `frames` samples of its
/// first `channels` channels were set to silence.
pub open spec fn spec_silenced(before: Seq<Seq<u32>>, channels: nat, frames: nat) -> Seq<Seq<u32>> {
    Seq::new(
        before.len(),
        |c: int|
            Seq::new(
                before[c].len(),
                |i: int|
                    if c < channels && i < frames {
                        SILENCE
                    } else {
                        before[c][i]
                    },
            ),
    )
}

/// A counter after `more` was added to it, held at its largest value
/// rather than wrapped.
pub open spec fn spec_count(counter: u64, more: nat) -> u64 {
    if counter + more <= u64::MAX {
        (counter + more) as u64
    } else {
        u64::MAX
    }
}

fn count(counter: u64, more: usize) -> (sum: u64)
    ensures
        sum == spec_count(counter, more as nat),
{
    let more: u64 = more as u64;
    if more <= u64::MAX - counter {
        counter + more
    } else {
        u64::MAX
    }
}

impl AudioPath {
    /// The addresses that the records of the path point to.
    pub open spec fn spec_wiring(self) -> Wiring {
        Wiring {
            inputs: self.process_data.inputs,
            outputs: self.process_data.outputs,
            input_channels: self.in_bus.channel_buffers_32,
            output_channels: self.out_bus.channel_buffers_32,
            input_parameter_changes: self.process_data.input_parameter_changes,
        }
    }

    /// Whether the channel count and the frame counts are such that the
    /// scratch arrays have room for them.
    pub open spec fn wf(self) -> bool {
        &&& 0 < self.channels <= CHANNELS
        &&& self.frames <= MAX_BLOCK_SIZE
        &&& self.resampled_frames <= MAX_BLOCK_SIZE
    }

    pub fn is_wf(&self) -> (yes: bool)
        ensures
            yes == self.wf(),
    {
        0 < self.channels && self.channels <= CHANNELS && self.frames <= MAX_BLOCK_SIZE
            && self.resampled_frames <= MAX_BLOCK_SIZE
    }

    /// What no step of the data path changes: the channel count, the bus
    /// records but for nothing, and every address of the process data.
    pub open spec fn spec_same_records(self, before: AudioPath) -> bool {
        &&& self.channels == before.channels
        &&& self.in_bus == before.in_bus
        &&& self.out_bus == before.out_bus
        &&& self.input_params == before.input_params
        &&& self.spec_wiring() == before.spec_wiring()
        &&& self.process_data == (ProcessData {
            num_samples: self.process_data.num_samples,
            ..before.process_data
        })
    }

    /// A path for `channels` channels, with silent scratch arrays and
    /// nothing wired. A channel count of zero counts as one, one above the
    /// number of channels of the scratch arrays as that number.
    pub fn new(channels: usize, wiring: Wiring) -> (path: AudioPath)
        ensures
            path.wf(),
            path.channels == if channels == 0 {
                1
            } else if channels > CHANNELS {
                CHANNELS
            } else {
                channels
            },
            path.phase == BlockPhase::Idle,
            path.frames == 0,
            path.resampled_frames == 0,
            path.overruns == 0,
            path.spec_wiring() == wiring,
            path.in_bus == (AudioBusBuffers {
                num_channels: 2,
                silence_flags: 0,
                channel_buffers_32: wiring.input_channels,
            }),
            path.out_bus == (AudioBusBuffers {
                num_channels: 2,
                silence_flags: 0,
                channel_buffers_32: wiring.output_channels,
            }),
            path.process_data == (ProcessData {
                process_mode: ProcessMode::Realtime,
                symbolic_sample_size: SymbolicSampleSize::Sample32,
                num_samples: 480,
                num_inputs: 1,
                num_outputs: 1,
                inputs: wiring.inputs,
                outputs: wiring.outputs,
                input_parameter_changes: wiring.input_parameter_changes,
                output_parameter_changes: 0,
                input_events: 0,
                output_events: 0,
                process_context: 0,
            }),
            path.input_data@ == Seq::new(
                CHANNELS as nat,
                |c: int| Seq::new(MAX_BLOCK_SIZE as nat, |i: int| SILENCE),
            ),
            path.output_data@ == path.input_data@,
            path.resampled_data@ == path.input_data@,
    {
        let channels = if channels == 0 {
            1
        } else if channels > CHANNELS {
            CHANNELS
        } else {
            channels
        };
        AudioPath {
            input_data: Sync2DArray::new(SILENCE, MAX_BLOCK_SIZE),
            output_data: Sync2DArray::new(SILENCE, MAX_BLOCK_SIZE),
            resampled_data: Sync2DArray::new(SILENCE, MAX_BLOCK_SIZE),
            in_bus: AudioBusBuffers {
                num_channels: 2,
                silence_flags: 0,
                channel_buffers_32: wiring.input_channels,
            },
            out_bus: AudioBusBuffers {
                num_channels: 2,
                silence_flags: 0,
                channel_buffers_32: wiring.output_channels,
            },
            input_params: HostParameterChanges::new(),
            process_data: ProcessData {
                process_mode: ProcessMode::Realtime,
                symbolic_sample_size: SymbolicSampleSize::Sample32,
                num_samples: 480,
                num_inputs: 1,
                num_outputs: 1,
                inputs: wiring.inputs,
                outputs: wiring.outputs,
                input_parameter_changes: wiring.input_parameter_changes,
                output_parameter_changes: 0,
                input_events: 0,
                output_events: 0,
                process_context: 0,
            },
            channels,
            phase: BlockPhase::Idle,
            frames: 0,
            resampled_frames: 0,
            overruns: 0,
        }
    }

    /// First step of a block: stores the captured frames, which the driver
    /// hands over interleaved, channel by channel in the input array.
    ///
    /// A trailing part of a frame is left out. The block is refused if one
    /// is in flight, or if it has more than `MAX_BLOCK_SIZE` frames.
    pub fn capture(&mut self, data: &[u32]) -> (frames: Result<usize, PathError>)
        requires
            old(self).wf(),
        ensures
            final(self).wf(),
            final(self).spec_same_records(*old(self)),
            final(self).output_data@ == old(self).output_data@,
            final(self).resampled_data@ == old(self).resampled_data@,
            final(self).resampled_frames == old(self).resampled_frames,
            final(self).overruns == old(self).overruns,
            frames == if old(self).phase != BlockPhase::Idle {
                Err::<usize, PathError>(PathError::OutOfOrder)
            } else if data@.len() / old(self).channels as nat > MAX_BLOCK_SIZE {
                Err::<usize, PathError>(PathError::BlockTooLarge)
            } else {
                Ok::<usize, PathError>((data@.len() / old(self).channels as nat) as usize)
            },
            frames is Err ==> {
                &&& final(self).input_data@ == old(self).input_data@
                &&& final(self).phase == old(self).phase
                &&& final(self).frames == old(self).frames
                &&& final(self).process_data == old(self).process_data
            },
            frames matches Ok(count) ==> {
                &&& final(self).input_data@ == spec_deinterleaved(
                    old(self).input_data@,
                    data@,
                    old(self).channels as nat,
                    count as nat,
                )
                &&& final(self).phase == BlockPhase::Captured
                &&& final(self).frames == count
                &&& final(self).process_data.num_samples == count
            },
    {
        if self.phase != BlockPhase::Idle {
            return Err(PathError::OutOfOrder);
        }
        let channels = self.channels;
        let frames = data.len() / channels;
        if frames > MAX_BLOCK_SIZE {
            return Err(PathError::BlockTooLarge);
        }
        let ghost before = self.input_data@;
        proof {
            self.input_data.lemma_shape();
            assert(frames * channels <= data@.len()) by (nonlinear_arith)
                requires
                    frames == data@.len() / channels as nat,
                    channels > 0,
            ;
            assert(before =~~= spec_deinterleaved(before, data@, channels as nat, 0));
        }
        let mut frame: usize = 0;
        while frame < frames
            invariant
                0 < channels <= CHANNELS,
                frame <= frames <= MAX_BLOCK_SIZE,
                frames * channels <= data@.len(),
                before.len() == CHANNELS,
                forall|c: int| 0 <= c < CHANNELS ==> (#[trigger] before[c]).len() == MAX_BLOCK_SIZE,
                self.input_data@ == spec_deinterleaved(before, data@, channels as nat, frame as nat),
                self.output_data@ == old(self).output_data@,
                self.resampled_data@ == old(self).resampled_data@,
                self.in_bus == old(self).in_bus,
                self.out_bus == old(self).out_bus,
                self.input_params == old(self).input_params,
                self.process_data == old(self).process_data,
                self.channels == channels,
                self.channels == old(self).channels,
                self.phase == old(self).phase,
                self.frames == old(self).frames,
                self.resampled_frames == old(self).resampled_frames,
                self.overruns == old(self).overruns,
            decreases frames - frame,
        {
            let mut channel: usize = 0;
            let ghost row_before = self.input_data@;
            proof {
                assert((frame + 1) * channels <= frames * channels) by (nonlinear_arith)
                    requires
                        frame < frames,
                ;
                assert((frame + 1) * channels == frame * channels + channels)
                    by (nonlinear_arith);
            }
            while channel < channels
                invariant
                    0 < channels <= CHANNELS,
                    channel <= channels,
                    frame < frames <= MAX_BLOCK_SIZE,
                    frame * channels + channels <= data@.len(),
                    before.len() == CHANNELS,
                    forall|c: int|
                        0 <= c < CHANNELS ==> (#[trigger] before[c]).len() == MAX_BLOCK_SIZE,
                    row_before == spec_deinterleaved(before, data@, channels as nat, frame as nat),
                    self.input_data@.len() == CHANNELS,
                    forall|c: int|
                        0 <= c < CHANNELS ==> (#[trigger] self.input_data@[c]).len()
                            == MAX_BLOCK_SIZE,
                    forall|c: int, i: int|
                        0 <= c < CHANNELS && 0 <= i < MAX_BLOCK_SIZE ==> self.input_data@[c][i]
                            == if c < channel && i == frame {
                            data@[i * channels + c]
                        } else {
                            row_before[c][i]
                        },
                    self.output_data@ == old(self).output_data@,
                    self.resampled_data@ == old(self).resampled_data@,
                    self.in_bus == old(self).in_bus,
                    self.out_bus == old(self).out_bus,
                    self.input_params == old(self).input_params,
                    self.process_data == old(self).process_data,
                    self.channels == channels,
                    self.channels == old(self).channels,
                    self.phase == old(self).phase,
                    self.frames == old(self).frames,
                    self.resampled_frames == old(self).resampled_frames,
                    self.overruns == old(self).overruns,
                decreases channels - channel,
            {
                let sample = data[frame * channels + channel];
                self.input_data.write(channel, frame, sample);
                channel += 1;
            }
            frame += 1;
            proof {
                assert(self.input_data@ =~~= spec_deinterleaved(
                    before,
                    data@,
                    channels as nat,
                    frame as nat,
                ));
            }
        }
        self.frames = frames;
        self.process_data.num_samples = frames as i32;
        self.phase = BlockPhase::Captured;
        Ok(frames)
    }

    /// Second step of a block, after `plugins` plugins have processed it in
    /// the order of the registry. With no plugin, the result is silence:
    /// the frames of the block are silent in the output array. A registry
    /// that could not be read without waiting counts as empty.
    pub fn processed(&mut self, plugins: usize) -> (done: Result<(), PathError>)
        requires
            old(self).wf(),
        ensures
            final(self).wf(),
            final(self).spec_same_records(*old(self)),
            final(self).process_data == old(self).process_data,
            final(self).input_data@ == old(self).input_data@,
            final(self).resampled_data@ == old(self).resampled_data@,
            final(self).frames == old(self).frames,
            final(self).resampled_frames == old(self).resampled_frames,
            final(self).overruns == old(self).overruns,
            done is Ok == (old(self).phase == BlockPhase::Captured),
            done matches Err(error) ==> error == PathError::OutOfOrder && final(self).phase == old(
                self,
            ).phase && final(self).output_data@ == old(self).output_data@,
            done is Ok ==> final(self).phase == BlockPhase::Processed && final(self).output_data@
                == if plugins == 0 {
                spec_silenced(
                    old(self).output_data@,
                    old(self).channels as nat,
                    old(self).frames as nat,
                )
            } else {
                old(self).output_data@
            },
    {
        if self.phase != BlockPhase::Captured {
            return Err(PathError::OutOfOrder);
        }
        if plugins == 0 {
            let channels = self.channels;
            let frames = self.frames;
            let ghost before = self.output_data@;
            proof {
                self.output_data.lemma_shape();
                assert(before =~~= spec_silenced(before, 0, frames as nat));
            }
            let mut channel: usize = 0;
            while channel < channels
                invariant
                    0 < channels <= CHANNELS,
                    channel <= channels,
                    frames <= MAX_BLOCK_SIZE,
                    before.len() == CHANNELS,
                    forall|c: int|
                        0 <= c < CHANNELS ==> (#[trigger] before[c]).len() == MAX_BLOCK_SIZE,
                    self.output_data@ == spec_silenced(before, channel as nat, frames as nat),
                    self.input_data@ == old(self).input_data@,
                    self.resampled_data@ == old(self).resampled_data@,
                    self.in_bus == old(self).in_bus,
                    self.out_bus == old(self).out_bus,
                    self.input_params == old(self).input_params,
                    self.process_data == old(self).process_data,
                    self.channels == old(self).channels,
                    self.phase == old(self).phase,
                    self.frames == old(self).frames,
                    self.resampled_frames == old(self).resampled_frames,
                    self.overruns == old(self).overruns,
                decreases channels - channel,
            {
                let mut frame: usize = 0;
                let ghost row_before = self.output_data@;
                while frame < frames
                    invariant
                        channel < channels <= CHANNELS,
                        frame <= frames <= MAX_BLOCK_SIZE,
                        before.len() == CHANNELS,
                        forall|c: int|
                            0 <= c < CHANNELS ==> (#[trigger] before[c]).len() == MAX_BLOCK_SIZE,
                        row_before == spec_silenced(before, channel as nat, frames as nat),
                        self.output_data@.len() == CHANNELS,
                        forall|c: int|
                            0 <= c < CHANNELS ==> (#[trigger] self.output_data@[c]).len()
                                == MAX_BLOCK_SIZE,
                        forall|c: int, i: int|
                            0 <= c < CHANNELS && 0 <= i < MAX_BLOCK_SIZE
                                ==> self.output_data@[c][i] == if c == channel && i < frame {
                                SILENCE
                            } else {
                                row_before[c][i]
                            },
                        self.input_data@ == old(self).input_data@,
                        self.resampled_data@ == old(self).resampled_data@,
                        self.in_bus == old(self).in_bus,
                        self.out_bus == old(self).out_bus,
                        self.input_params == old(self).input_params,
                        self.process_data == old(self).process_data,
                        self.channels == old(self).channels,
                        self.phase == old(self).phase,
                        self.frames == old(self).frames,
                        self.resampled_frames == old(self).resampled_frames,
                        self.overruns == old(self).overruns,
                    decreases frames - frame,
                {
                    self.output_data.write(channel, frame, SILENCE);
                    frame += 1;
                }
                channel += 1;
                proof {
                    assert(self.output_data@ =~~= spec_silenced(
                        before,
                        channel as nat,
                        frames as nat,
                    ));
                }
            }
        }
        self.phase = BlockPhase::Processed;
        Ok(())
    }

    /// Third step of a block, after the sample rate converter has written
    /// `frames` frames to the resampled array. The converter yields at most
    /// twice the frames of the block; more, or more than the array holds,
    /// is refused, and the block is given up.
    pub fn resampled(&mut self, frames: usize) -> (done: Result<(), PathError>)
        requires
            old(self).wf(),
        ensures
            final(self).wf(),
            final(self).spec_same_records(*old(self)),
            final(self).process_data == old(self).process_data,
            final(self).input_data@ == old(self).input_data@,
            final(self).output_data@ == old(self).output_data@,
            final(self).resampled_data@ == old(self).resampled_data@,
            final(self).frames == old(self).frames,
            final(self).overruns == old(self).overruns,
            done == if old(self).phase != BlockPhase::Processed {
                Err::<(), PathError>(PathError::OutOfOrder)
            } else if frames > 2 * old(self).frames || frames > MAX_BLOCK_SIZE {
                Err::<(), PathError>(PathError::TooManyFrames)
            } else {
                Ok::<(), PathError>(())
            },
            done is Ok ==> final(self).phase == BlockPhase::Resampled
                && final(self).resampled_frames == frames,
            done == Err::<(), PathError>(PathError::OutOfOrder) ==> final(self).phase == old(
                self,
            ).phase && final(self).resampled_frames == old(self).resampled_frames,
            done == Err::<(), PathError>(PathError::TooManyFrames) ==> final(self).phase
                == BlockPhase::Idle && final(self).resampled_frames == old(self).resampled_frames,
    {
        if self.phase != BlockPhase::Processed {
            return Err(PathError::OutOfOrder);
        }
        if frames > MAX_BLOCK_SIZE || frames / 2 > self.frames || (frames / 2 == self.frames
            && frames % 2 == 1) {
            self.phase = BlockPhase::Idle;
            return Err(PathError::TooManyFrames);
        }
        self.resampled_frames = frames;
        self.phase = BlockPhase::Resampled;
        Ok(())
    }

    /// Gives up the block in flight, if there is one: the path is idle
    /// afterwards. The samples of a block that was ready for the ring count
    /// as dropped. Returns the number of samples that were dropped.
    pub fn abandon(&mut self) -> (dropped: usize)
        requires
            old(self).wf(),
        ensures
            final(self).wf(),
            final(self).spec_same_records(*old(self)),
            final(self).process_data == old(self).process_data,
            final(self).input_data@ == old(self).input_data@,
            final(self).output_data@ == old(self).output_data@,
            final(self).resampled_data@ == old(self).resampled_data@,
            final(self).frames == old(self).frames,
            final(self).resampled_frames == old(self).resampled_frames,
            final(self).phase == BlockPhase::Idle,
            dropped == if old(self).phase == BlockPhase::Resampled {
                old(self).resampled_frames * old(self).channels
            } else {
                0
            },
            final(self).overruns == spec_count(old(self).overruns, dropped as nat),
    {
        let dropped = if self.phase == BlockPhase::Resampled {
            assert(self.resampled_frames * self.channels <= 2048 * 2) by (nonlinear_arith)
                requires
                    self.resampled_frames <= 2048,
                    self.channels <= 2,
            ;
            self.resampled_frames * self.channels
        } else {
            0
        };
        self.overruns = count(self.overruns, dropped);
        self.phase = BlockPhase::Idle;
        dropped
    }

    /// Last step of a block: offers the converted frames to the ring,
    /// interleaved. What the ring has no room for is dropped and counted.
    /// Returns the number of samples that were dropped.
    pub fn enqueue(&mut self, ring: &mut SampleRing) -> (dropped: Result<usize, PathError>)
        requires
            old(self).wf(),
        ensures
            final(self).wf(),
            final(self).spec_same_records(*old(self)),
            final(self).process_data == old(self).process_data,
            final(self).input_data@ == old(self).input_data@,
            final(self).output_data@ == old(self).output_data@,
            final(self).resampled_data@ == old(self).resampled_data@,
            final(self).frames == old(self).frames,
            final(self).resampled_frames == old(self).resampled_frames,
            ring_capacity(*final(ring)) == ring_capacity(*old(ring)),
            old(ring).wf() ==> final(ring).wf(),
            dropped is Ok == (old(self).phase == BlockPhase::Resampled),
            dropped matches Err(error) ==> {
                &&& error == PathError::OutOfOrder
                &&& final(self).phase == old(self).phase
                &&& final(self).overruns == old(self).overruns
                &&& ring_items(*final(ring)) == ring_items(*old(ring))
            },
            dropped matches Ok(count) ==> {
                &&& final(self).phase == BlockPhase::Idle
                &&& ring_items(*final(ring)) == spec_after_push(
                    ring_items(*old(ring)),
                    spec_free(*old(ring)),
                    spec_interleave(
                        old(self).resampled_data@,
                        old(self).channels as nat,
                        old(self).resampled_frames as nat,
                    ),
                )
                &&& count == if old(self).resampled_frames * old(self).channels <= spec_free(
                    *old(ring),
                ) {
                    0
                } else {
                    old(self).resampled_frames * old(self).channels - spec_free(*old(ring))
                }
                &&& final(self).overruns == spec_count(old(self).overruns, count as nat)
            },
    {
        if self.phase != BlockPhase::Resampled {
            return Err(PathError::OutOfOrder);
        }
        proof {
            assert(self.resampled_frames * self.channels <= 2048 * 2) by (nonlinear_arith)
                requires
                    self.resampled_frames <= 2048,
                    self.channels <= 2,
            ;
        }
        let dropped = ring.push_frames(&self.resampled_data, self.channels, self.resampled_frames);
        self.overruns = count(self.overruns, dropped);
        self.phase = BlockPhase::Idle;
        Ok(dropped)
    }
}

impl OutputPath {
    pub fn new() -> (path: OutputPath)
        ensures
            path.underruns == 0,
    {
        OutputPath { underruns: 0 }
    }

    /// Renders one output block: every slot gets the next sample of the
    /// ring, or silence if the ring is empty. Slots that got silence for
    /// that reason are counted.
    pub fn render(&mut self, ring: &mut SampleRing, out: &mut [u32]) -> (silent: usize)
        ensures
            ring_capacity(*final(ring)) == ring_capacity(*old(ring)),
            old(ring).wf() ==> final(ring).wf(),
            final(out)@ == spec_drained(ring_items(*old(ring)), old(out)@.len()),
            ring_items(*final(ring)) == spec_after_drain(ring_items(*old(ring)), old(out)@.len()),
            silent == if old(out)@.len() <= ring_items(*old(ring)).len() {
                0
            } else {
                old(out)@.len() - ring_items(*old(ring)).len()
            },
            final(self).underruns == spec_count(old(self).underruns, silent as nat),
    {
        let silent = ring.drain_into(out);
        self.underruns = count(self.underruns, silent);
        silent
    }
}

/// What was captured is what the ring is offered, if nothing in between
/// changes it: interleaving the channels that a block was stored in gives
/// the block back, frame by frame.
pub proof fn lemma_interleave_deinterleaved(
    before: Seq<Seq<u32>>,
    data: Seq<u32>,
    channels: nat,
    frames: nat,
)
    requires
        0 < channels <= before.len(),
        forall|c: int| 0 <= c < before.len() ==> frames <= (#[trigger] before[c]).len(),
        frames * channels <= data.len(),
    ensures
        spec_interleave(spec_deinterleaved(before, data, channels, frames), channels, frames)
            == data.take((frames * channels) as int),
{
    let stored = spec_deinterleaved(before, data, channels, frames);
    let block = spec_interleave(stored, channels, frames);
    assert forall|k: int| 0 <= k < frames * channels implies #[trigger] block[k] == data[k] by {
        let c = k % channels as int;
        let i = k / channels as int;
        assert(0 <= c < channels && 0 <= i < frames && i * channels + c == k)
            by (nonlinear_arith)
            requires
                c == k % channels as int,
                i == k / channels as int,
                0 <= k < frames * channels,
                channels > 0,
        ;
        assert(stored[c][i] == data[i * channels + c]);
    }
    assert(block =~= data.take((frames * channels) as int));
}

/// With no plugin in the registry a block comes out silent: the frames
/// that the ring is offered from a silenced array are silence.
pub proof fn lemma_silenced_block_is_silent(before: Seq<Seq<u32>>, channels: nat, frames: nat)
    requires
        0 < channels <= before.len(),
        forall|c: int| 0 <= c < before.len() ==> frames <= (#[trigger] before[c]).len(),
    ensures
        spec_interleave(spec_silenced(before, channels, frames), channels, frames) == Seq::new(
            frames * channels,
            |k: int| SILENCE,
        ),
{
    let silenced = spec_silenced(before, channels, frames);
    let block = spec_interleave(silenced, channels, frames);
    assert forall|k: int| 0 <= k < frames * channels implies #[trigger] block[k] == SILENCE by {
        let c = k % channels as int;
        let i = k / channels as int;
        assert(0 <= c < channels && 0 <= i < frames) by (nonlinear_arith)
            requires
                c == k % channels as int,
                i == k / channels as int,
                0 <= k < frames * channels,
                channels > 0,
        ;
        assert(silenced[c][i] == SILENCE);
    }
    assert(block =~= Seq::new(frames * channels, |k: int| SILENCE));
}

} // verus!
