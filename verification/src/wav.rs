//! What recording to a WAV file and playing a test tone need beside the
//! audio driver: the format of the file, and the layout of a block.

use vstd::prelude::*;

verus! {

/// Whether the samples of a WAV file are floats or integers.
#[derive(Debug, Clone, Copy, PartialEq, Eq, Structural)]
pub enum SampleFormat {
    Float,
    Int,
}

/// The format of a WAV file.
#[derive(Debug, Clone, Copy, PartialEq, Eq, Structural)]
pub struct WavSpec {
    pub channels: u16,
    pub sample_rate: u32,
    pub bits_per_sample: u16,
    pub sample_format: SampleFormat,
}

/// The sample format of a file for the sample format of a stream.
pub fn sample_format(is_float: bool) -> (format: SampleFormat)
    ensures
        format == if is_float {
            SampleFormat::Float
        } else {
            SampleFormat::Int
        },
{
    if is_float {
        SampleFormat::Float
    } else {
        SampleFormat::Int
    }
}

/// The format of a file that takes what a stream delivers: the channels and
/// the rate of the stream, and eight bits for every byte of a sample. A
/// sample of more bytes than a file can say is held at the largest number
/// of bits.
pub fn wav_spec_from_config(
    channels: u16,
    sample_rate: u32,
    sample_size: usize,
    is_float: bool,
) -> (spec: WavSpec)
    ensures
        spec.channels == channels,
        spec.sample_rate == sample_rate,
        spec.bits_per_sample == if sample_size * 8 <= u16::MAX {
            (sample_size * 8) as u16
        } else {
            u16::MAX
        },
        spec.sample_format == if is_float {
            SampleFormat::Float
        } else {
            SampleFormat::Int
        },
{
    let bits_per_sample: u16 = if sample_size <= 8191 {
        (sample_size * 8) as u16
    } else {
        u16::MAX
    };
    WavSpec { channels, sample_rate, bits_per_sample, sample_format: sample_format(is_float) }
}

/// A block in which every channel of a frame holds the value of that
/// frame. Frames beyond the values, and a trailing part of a frame, stay as
/// they are.
pub open spec fn spec_written<T>(before: Seq<T>, channels: nat, values: Seq<T>) -> Seq<T> {
    Seq::new(
        before.len(),
        |k: int|
            if channels > 0 && (k / (channels as int)) < values.len() && (k / (channels as int))
                < before.len() / channels {
                values[(k / (channels as int))]
            } else {
                before[k]
            },
    )
}

/// Whether writing has come past a place of a block, when it stands at a
/// channel of a frame.
pub open spec fn spec_reached(k: int, channels: usize, frame: int, channel: int) -> bool {
    (k / (channels as int)) < frame || ((k / (channels as int)) == frame && (k % (
    channels as int)) < channel)
}

/// Writes one value per frame to all channels of the frame.
pub fn write_data<T: Copy>(output: &mut [T], channels: usize, values: &[T])
    ensures
        final(output)@ == spec_written(old(output)@, channels as nat, values@),
{
    if channels == 0 {
        assert(output@ =~= spec_written(output@, 0, values@));
        return ;
    }
    let total = output.len();
    let frames = total / channels;
    let count = if frames < values.len() {
        frames
    } else {
        values.len()
    };
    proof {
        assert(frames * channels <= output@.len()) by (nonlinear_arith)
            requires
                frames == output@.len() / channels as nat,
                channels > 0,
        ;
    }
    let mut frame: usize = 0;
    while frame < count
        invariant
            channels > 0,
            frame <= count <= frames,
            count <= values@.len(),
            frames == old(output)@.len() / channels as nat,
            frames * channels <= output@.len(),
            output@.len() == total,
            output@.len() == old(output)@.len(),
            forall|k: int|
                0 <= k < output@.len() ==> output@[k] == if (k / (channels as int)) < frame {
                    values@[(k / (channels as int))]
                } else {
                    old(output)@[k]
                },
        decreases count - frame,
    {
        let mut channel: usize = 0;
        proof {
            assert((frame + 1) * channels <= frames * channels) by (nonlinear_arith)
                requires
                    frame < frames,
            ;
            assert((frame + 1) * channels == frame * channels + channels) by (nonlinear_arith);
        }
        while channel < channels
            invariant
                channels > 0,
                channel <= channels,
                frame < count <= frames,
                count <= values@.len(),
                frame * channels + channels <= output@.len(),
                output@.len() == total,
                output@.len() == old(output)@.len(),
                forall|k: int|
                    0 <= k < output@.len() ==> output@[k] == if spec_reached(
                        k,
                        channels,
                        frame as int,
                        channel as int,
                    ) {
                        values@[(k / (channels as int))]
                    } else {
                        old(output)@[k]
                    },
            decreases channels - channel,
        {
            let at = frame * channels + channel;
            proof {
                assert(at / channels == frame && at % channels == channel) by (nonlinear_arith)
                    requires
                        at == frame * channels + channel,
                        channel < channels,
                ;
            }
            let ghost before = output@;
            output[at] = values[frame];
            proof {
                assert forall|k: int| 0 <= k < output@.len() implies output@[k] == if spec_reached(
                    k,
                    channels,
                    frame as int,
                    channel + 1,
                ) {
                    values@[(k / (channels as int))]
                } else {
                    old(output)@[k]
                } by {
                    if k != at {
                        assert(output@[k] == before[k]);
                        if (k / (channels as int)) == frame {
                            assert((k % (channels as int)) != channel) by (nonlinear_arith)
                                requires
                                    k != frame * channels + channel,
                                    (k / (channels as int)) == frame,
                                    channels > 0,
                                    0 <= k,
                            ;
                        }
                    }
                }
            }
            channel += 1;
        }
        proof {
            assert forall|k: int| 0 <= k < output@.len() implies output@[k] == if spec_reached(
                k,
                channels,
                frame + 1,
                0,
            ) {
                values@[(k / (channels as int))]
            } else {
                old(output)@[k]
            } by {
                if (k / (channels as int)) == frame {
                    assert(0 <= (k % (channels as int)) < channels);
                }
            }
        }
        frame += 1;
    }
    proof {
        assert forall|k: int| 0 <= k < output@.len() implies output@[k] == spec_written(
            old(output)@,
            channels as nat,
            values@,
        )[k] by {
            let f = (k / (channels as int));
            if f < values@.len() && f < frames {
                assert(f < count);
            } else {
                assert(f >= count);
            }
        }
        assert(output@ =~= spec_written(old(output)@, channels as nat, values@));
    }
}

} // verus!
