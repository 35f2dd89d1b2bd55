use voxea::wav::{sample_format, wav_spec_from_config, SampleFormat, WavSpec};
use voxea::wav::write_data;
use voxea::path::{AudioPath, BlockPhase, OutputPath, PathError, Wiring, DEFAULT_BLOCK_SIZE};
use voxea::processing::{
    AudioBusBuffers, BusFlags, BusInfo, BusDirection, BusType, HostParameterChanges, IoMode,
    MediaType, ProcessMode, ProcessSetup, RoutingInfo, SymbolicSampleSize, CHANNELS,
    MAX_BLOCK_SIZE,
};
use voxea::interface::{InterfaceKind, VtableSlot};
use voxea::ring::{SampleRing, MAX_RING_CAPACITY, SILENCE};
use voxea::scratch::Sync2DArray;

fn wiring() -> Wiring {
    Wiring {
        inputs: 0x100,
        outputs: 0x200,
        input_channels: 0x300,
        output_channels: 0x400,
        input_parameter_changes: 0x500,
    }
}

fn bits(samples: &[f32]) -> Vec<u32> {
    samples.iter().map(|s| s.to_bits()).collect()
}

/// The part of the caller between the plugins and the ring, with a
/// converter that leaves the block as it is.
fn pass_on(path: &mut AudioPath) {
    let frames = path.frames;
    for channel in 0..path.channels {
        let source = *path.output_data.as_ref(channel);
        path.resampled_data.as_mut_ref(channel)[..frames].copy_from_slice(&source[..frames]);
    }
    assert_eq!(path.resampled(frames), Ok(()));
}

#[test]
fn ring_is_made_for_valid_capacities_only() {
    assert!(SampleRing::new(0).is_none());
    assert!(SampleRing::new(MAX_RING_CAPACITY + 1).is_none());
    let ring = SampleRing::new(8).unwrap();
    assert_eq!(ring.capacity(), 8);
    assert_eq!(ring.len(), 0);
    let ring = SampleRing::for_block(480, 2).unwrap();
    assert_eq!(ring.capacity(), 1920);
    assert_eq!(SampleRing::for_block(192, 2).unwrap().capacity(), 768);
    assert!(SampleRing::for_block(0, 2).is_none());
    assert!(SampleRing::for_block(480, 0).is_none());
    assert!(SampleRing::for_block(MAX_RING_CAPACITY, 1).is_none());
    assert_eq!(SampleRing::for_block(MAX_RING_CAPACITY / 2, 1).unwrap().capacity(), MAX_RING_CAPACITY);
}

#[test]
fn ring_is_first_in_first_out() {
    let mut ring = SampleRing::new(4).unwrap();
    assert_eq!(ring.pop(), None);
    assert!(ring.push(11));
    assert!(ring.push(22));
    assert_eq!(ring.len(), 2);
    assert_eq!(ring.pop(), Some(11));
    assert!(ring.push(33));
    assert!(ring.push(44));
    assert!(ring.push(55));
    assert_eq!(ring.len(), 4);
    assert!(!ring.push(66));
    assert_eq!(ring.len(), 4);
    assert_eq!(ring.pop(), Some(22));
    assert_eq!(ring.pop(), Some(33));
    assert_eq!(ring.pop(), Some(44));
    assert_eq!(ring.pop(), Some(55));
    assert_eq!(ring.pop(), None);
    assert_eq!(ring.len(), 0);
    assert_eq!(ring.capacity(), 4);
}

#[test]
fn ring_unread_count_never_exceeds_capacity() {
    let mut ring = SampleRing::new(5).unwrap();
    let mut expected = std::collections::VecDeque::new();
    let mut next = 1u32;
    for round in 0..200u32 {
        if round % 3 != 2 {
            let accepted = ring.push(next);
            assert_eq!(accepted, expected.len() < 5);
            if accepted {
                expected.push_back(next);
            }
            next += 1;
        } else if round % 7 != 0 {
            assert_eq!(ring.pop(), expected.pop_front());
        }
        assert!(ring.len() <= ring.capacity());
        assert_eq!(ring.len(), expected.len());
    }
}

#[test]
fn push_frames_interleaves_and_drops_the_excess() {
    let mut samples: Sync2DArray<u32, 2, 8> = Sync2DArray::new(0, 8);
    for frame in 0..4 {
        samples.write(0, frame, 10 + frame as u32);
        samples.write(1, frame, 20 + frame as u32);
    }
    let mut ring = SampleRing::new(16).unwrap();
    assert_eq!(ring.push_frames(&samples, 2, 4), 0);
    assert_eq!(ring.len(), 8);
    let mut out = [99u32; 8];
    assert_eq!(ring.drain_into(&mut out), 0);
    assert_eq!(out, [10, 20, 11, 21, 12, 22, 13, 23]);

    let mut small = SampleRing::new(5).unwrap();
    assert_eq!(small.push_frames(&samples, 2, 4), 3);
    assert_eq!(small.len(), 5);
    let mut out = [99u32; 7];
    assert_eq!(small.drain_into(&mut out), 2);
    assert_eq!(out, [10, 20, 11, 21, 12, SILENCE, SILENCE]);

    let mut mono = SampleRing::new(4).unwrap();
    assert_eq!(mono.push_frames(&samples, 1, 3), 0);
    let mut out = [99u32; 3];
    mono.drain_into(&mut out);
    assert_eq!(out, [10, 11, 12]);
    assert_eq!(mono.push_frames(&samples, 2, 0), 0);
    assert_eq!(mono.len(), 0);
}

#[test]
fn drain_gives_silence_when_empty() {
    let mut ring = SampleRing::new(4).unwrap();
    let mut out = [7u32; 6];
    assert_eq!(ring.drain_into(&mut out), 6);
    assert_eq!(out, [0; 6]);
    assert!(ring.push(5));
    let mut none: [u32; 0] = [];
    assert_eq!(ring.drain_into(&mut none), 0);
    assert_eq!(ring.len(), 1);
}

#[test]
fn scratch_array_reads_what_was_written() {
    let mut array: Sync2DArray<u32, 2, 4> = Sync2DArray::new(9, 3);
    assert_eq!(array.buffer_size(), 3);
    assert_eq!(array.read(), vec![9; 6]);
    array.write(0, 0, 1);
    array.write(0, 2, 3);
    array.write(1, 1, 5);
    array.write(1, 3, 8);
    assert_eq!(array.read(), vec![1, 9, 3, 9, 9, 5]);
    assert_eq!(array.get(1, 3), 8);
    assert_eq!(*array.as_ref(1), [9, 5, 9, 8]);
    array.as_mut_ref(0)[1] = 2;
    assert_eq!(*array.as_ref(0), [1, 2, 3, 9]);
    let clipped: Sync2DArray<u32, 2, 4> = Sync2DArray::new(0, 100);
    assert_eq!(clipped.buffer_size(), 4);
    assert_eq!(clipped.read().len(), 8);
    let none: Sync2DArray<u32, 3, 4> = Sync2DArray::new(0, 0);
    assert_eq!(none.read(), Vec::<u32>::new());
}

#[test]
fn new_path_is_wired_and_silent() {
    let path = AudioPath::new(2, wiring());
    assert_eq!(path.channels, 2);
    assert_eq!(path.phase, BlockPhase::Idle);
    assert_eq!(path.overruns, 0);
    assert_eq!(
        path.in_bus,
        AudioBusBuffers { num_channels: 2, silence_flags: 0, channel_buffers_32: 0x300 }
    );
    assert_eq!(
        path.out_bus,
        AudioBusBuffers { num_channels: 2, silence_flags: 0, channel_buffers_32: 0x400 }
    );
    assert_eq!(path.process_data.process_mode, ProcessMode::Realtime);
    assert_eq!(path.process_data.symbolic_sample_size, SymbolicSampleSize::Sample32);
    assert_eq!(path.process_data.num_inputs, 1);
    assert_eq!(path.process_data.num_outputs, 1);
    assert_eq!(path.process_data.num_samples, DEFAULT_BLOCK_SIZE as i32);
    assert_eq!(path.process_data.inputs, 0x100);
    assert_eq!(path.process_data.outputs, 0x200);
    assert_eq!(path.process_data.input_parameter_changes, 0x500);
    assert_eq!(path.process_data.output_parameter_changes, 0);
    assert_eq!(path.process_data.input_events, 0);
    assert_eq!(path.process_data.output_events, 0);
    assert_eq!(path.process_data.process_context, 0);
    assert!(path.input_data.read().iter().all(|s| *s == SILENCE));
    assert_eq!(path.input_data.read().len(), CHANNELS * MAX_BLOCK_SIZE);
    assert_eq!(AudioPath::new(0, wiring()).channels, 1);
    assert_eq!(AudioPath::new(7, wiring()).channels, 2);
    assert_eq!(AudioPath::new(1, wiring()).channels, 1);
}

#[test]
fn capture_deinterleaves() {
    let mut path = AudioPath::new(2, wiring());
    let data = [1u32, 101, 2, 102, 3, 103];
    assert_eq!(path.capture(&data), Ok(3));
    assert_eq!(path.phase, BlockPhase::Captured);
    assert_eq!(path.frames, 3);
    assert_eq!(path.process_data.num_samples, 3);
    assert_eq!(path.input_data.as_ref(0)[..4], [1, 2, 3, 0]);
    assert_eq!(path.input_data.as_ref(1)[..4], [101, 102, 103, 0]);

    let mut odd = AudioPath::new(2, wiring());
    assert_eq!(odd.capture(&[1, 2, 3]), Ok(1));
    assert_eq!(odd.input_data.as_ref(0)[..2], [1, 0]);
    assert_eq!(odd.input_data.as_ref(1)[..2], [2, 0]);

    let mut mono = AudioPath::new(1, wiring());
    assert_eq!(mono.capture(&[5, 6, 7]), Ok(3));
    assert_eq!(mono.input_data.as_ref(0)[..3], [5, 6, 7]);
    assert_eq!(mono.input_data.as_ref(1)[..3], [0, 0, 0]);
}

#[test]
fn block_above_the_scratch_size_is_rejected() {
    let mut path = AudioPath::new(2, wiring());
    let fits = vec![1u32; 2 * MAX_BLOCK_SIZE];
    let too_large = vec![1u32; 2 * (MAX_BLOCK_SIZE + 1)];
    assert_eq!(path.capture(&too_large), Err(PathError::BlockTooLarge));
    assert_eq!(path.phase, BlockPhase::Idle);
    assert!(path.input_data.read().iter().all(|s| *s == SILENCE));
    assert_eq!(path.capture(&fits), Ok(MAX_BLOCK_SIZE));
    assert!(path.input_data.read().iter().all(|s| *s == 1));
}

#[test]
fn steps_of_a_block_in_order_only() {
    let mut ring = SampleRing::new(16).unwrap();
    let mut path = AudioPath::new(2, wiring());
    assert_eq!(path.processed(1), Err(PathError::OutOfOrder));
    assert_eq!(path.resampled(0), Err(PathError::OutOfOrder));
    assert_eq!(path.enqueue(&mut ring), Err(PathError::OutOfOrder));
    assert_eq!(path.capture(&[1, 2]), Ok(1));
    assert_eq!(path.capture(&[1, 2]), Err(PathError::OutOfOrder));
    assert_eq!(path.resampled(1), Err(PathError::OutOfOrder));
    assert_eq!(path.enqueue(&mut ring), Err(PathError::OutOfOrder));
    assert_eq!(path.processed(1), Ok(()));
    assert_eq!(path.processed(1), Err(PathError::OutOfOrder));
    assert_eq!(path.enqueue(&mut ring), Err(PathError::OutOfOrder));
    assert_eq!(path.resampled(2), Ok(()));
    assert_eq!(path.phase, BlockPhase::Resampled);
    assert_eq!(path.enqueue(&mut ring), Ok(0));
    assert_eq!(path.phase, BlockPhase::Idle);
    assert_eq!(ring.len(), 4);
}

#[test]
fn converter_may_double_the_block_at_most() {
    let mut path = AudioPath::new(2, wiring());
    path.capture(&[0; 20]).unwrap();
    path.processed(1).unwrap();
    assert_eq!(path.resampled(21), Err(PathError::TooManyFrames));
    assert_eq!(path.phase, BlockPhase::Idle);
    path.capture(&[0; 20]).unwrap();
    path.processed(1).unwrap();
    assert_eq!(path.resampled(20), Ok(()));
    assert_eq!(path.resampled_frames, 20);

    let mut big = AudioPath::new(1, wiring());
    big.capture(&vec![0; 1500]).unwrap();
    big.processed(1).unwrap();
    assert_eq!(big.resampled(MAX_BLOCK_SIZE + 1), Err(PathError::TooManyFrames));
    big.capture(&vec![0; 1500]).unwrap();
    big.processed(1).unwrap();
    assert_eq!(big.resampled(MAX_BLOCK_SIZE), Ok(()));
}

#[test]
fn empty_registry_gives_silence() {
    let mut ring = SampleRing::for_block(4, 2).unwrap();
    let mut path = AudioPath::new(2, wiring());
    for channel in 0..2 {
        for (i, sample) in path.output_data.as_mut_ref(channel).iter_mut().enumerate() {
            *sample = 1000 + i as u32;
        }
    }
    assert_eq!(path.capture(&[1, 2, 3, 4, 5, 6, 7, 8]), Ok(4));
    assert_eq!(path.processed(0), Ok(()));
    assert_eq!(path.output_data.as_ref(0)[..6], [0, 0, 0, 0, 1004, 1005]);
    assert_eq!(path.output_data.as_ref(1)[..6], [0, 0, 0, 0, 1004, 1005]);
    pass_on(&mut path);
    assert_eq!(path.enqueue(&mut ring), Ok(0));
    assert_eq!(ring.len(), 8);
    let mut output = OutputPath::new();
    let mut out = [5u32; 8];
    assert_eq!(output.render(&mut ring, &mut out), 0);
    assert_eq!(out, [0; 8]);
    assert_eq!(output.underruns, 0);
}

#[test]
fn wiring_stays_where_it_is() {
    let mut ring = SampleRing::for_block(4, 2).unwrap();
    let mut path = AudioPath::new(2, wiring());
    let in_bus = path.in_bus;
    let out_bus = path.out_bus;
    for block in 0..50u32 {
        path.capture(&[block; 8]).unwrap();
        assert_eq!(path.process_data.inputs, 0x100);
        path.processed((block % 2) as usize).unwrap();
        pass_on(&mut path);
        path.enqueue(&mut ring).unwrap();
        assert_eq!(path.process_data.inputs, 0x100);
        assert_eq!(path.process_data.outputs, 0x200);
        assert_eq!(path.process_data.input_parameter_changes, 0x500);
        assert_eq!(path.in_bus, in_bus);
        assert_eq!(path.out_bus, out_bus);
        let mut out = [0u32; 8];
        ring.drain_into(&mut out);
    }
}

#[test]
fn overruns_and_underruns_are_counted() {
    let mut ring = SampleRing::new(6).unwrap();
    let mut path = AudioPath::new(2, wiring());
    let mut output = OutputPath::new();
    let block = [1u32, 2, 3, 4, 5, 6, 7, 8];
    path.capture(&block).unwrap();
    path.processed(1).unwrap();
    for channel in 0..2 {
        let source = *path.input_data.as_ref(channel);
        path.output_data.as_mut_ref(channel)[..4].copy_from_slice(&source[..4]);
    }
    pass_on(&mut path);
    assert_eq!(path.enqueue(&mut ring), Ok(2));
    assert_eq!(path.overruns, 2);
    let mut out = [9u32; 8];
    assert_eq!(output.render(&mut ring, &mut out), 2);
    assert_eq!(out, [1, 2, 3, 4, 5, 6, 0, 0]);
    assert_eq!(output.underruns, 2);
    assert_eq!(output.render(&mut ring, &mut out), 8);
    assert_eq!(output.underruns, 10);
    let mut saturated = OutputPath { underruns: u64::MAX - 1 };
    saturated.render(&mut ring, &mut out);
    assert_eq!(saturated.underruns, u64::MAX);
}

#[test]
fn load_silence_unload() {
    let mut ring = SampleRing::for_block(480, 2).unwrap();
    let mut path = AudioPath::new(2, wiring());
    let mut output = OutputPath::new();
    let silence = bits(&[0.0f32; 960]);
    let mut produced = 0usize;
    let mut zeros = 0usize;
    for _ in 0..100 {
        assert_eq!(path.capture(&silence), Ok(480));
        assert_eq!(path.processed(1), Ok(()));
        for channel in 0..2 {
            let source = *path.input_data.as_ref(channel);
            path.output_data.as_mut_ref(channel)[..480].copy_from_slice(&source[..480]);
        }
        pass_on(&mut path);
        assert_eq!(path.enqueue(&mut ring), Ok(0));
        let mut out = [1u32; 960];
        assert_eq!(output.render(&mut ring, &mut out), 0);
        produced += out.len() / 2;
        zeros += out.chunks(2).filter(|f| f32::from_bits(f[0]) == 0.0).count();
    }
    assert_eq!(produced, 48000);
    assert!(zeros * 100 >= produced * 95);
    assert_eq!(path.overruns, 0);
    assert_eq!(output.underruns, 0);
}

#[test]
fn passthrough_gain() {
    let mut ring = SampleRing::for_block(480, 2).unwrap();
    let mut path = AudioPath::new(2, wiring());
    let mut output = OutputPath::new();
    let mut block = Vec::new();
    for i in 0..480 {
        let s = (i as f32 * 440.0 * 2.0 * std::f32::consts::PI / 48000.0).sin();
        block.push(s.to_bits());
        block.push(s.to_bits());
    }
    assert_eq!(path.capture(&block), Ok(480));
    for channel in 0..2 {
        let source = *path.input_data.as_ref(channel);
        for (o, i) in path.output_data.as_mut_ref(channel)[..480].iter_mut().zip(&source[..480]) {
            *o = (f32::from_bits(*i) * 0.5).to_bits();
        }
    }
    assert_eq!(path.processed(1), Ok(()));
    pass_on(&mut path);
    assert_eq!(path.enqueue(&mut ring), Ok(0));
    let mut out = [0u32; 960];
    assert_eq!(output.render(&mut ring, &mut out), 0);
    let peak = out.iter().map(|b| f32::from_bits(*b).abs()).fold(0.0f32, f32::max);
    assert!((0.49..=0.51).contains(&peak), "{}", peak);
}

#[test]
fn processing_records() {
    assert_eq!(ProcessMode::Realtime.code(), 0);
    assert_eq!(ProcessMode::Prefetch.code(), 1);
    assert_eq!(ProcessMode::Offline.code(), 2);
    assert_eq!(SymbolicSampleSize::Sample32.code(), 0);
    assert_eq!(SymbolicSampleSize::Sample64.code(), 1);
    assert_eq!(MediaType::Audio.code(), 0);
    assert_eq!(MediaType::Event.code(), 1);
    assert_eq!(MediaType::NumMediaTypes.code(), 2);
    assert_eq!(BusDirection::Input.code(), 0);
    assert_eq!(BusDirection::Output.code(), 1);
    assert_eq!(BusType::Main.code(), 0);
    assert_eq!(BusType::Aux.code(), 1);
    assert_eq!(IoMode::Simple.code(), 0);
    assert_eq!(IoMode::Advanced.code(), 1);
    assert_eq!(IoMode::OffineProcessing.code(), 2);
    assert_eq!(BusFlags::DefaultActive.bits(), 1);
    assert_eq!(BusFlags::IsControlVoltlage.bits(), 2);
    let setup = ProcessSetup::initial();
    assert_eq!(setup.process_mode, ProcessMode::Realtime);
    assert_eq!(setup.symbolic_sample_size, SymbolicSampleSize::Sample32);
    assert_eq!(setup.max_samples_per_block, 1920);
    assert_eq!(setup.sample_rate, 48000);
    let info = BusInfo::default();
    assert_eq!(info.media_type, MediaType::Audio);
    assert_eq!(info.direction, BusDirection::Input);
    assert_eq!(info.channel_count, 0);
    assert_eq!(info.name, [0u16; 128]);
    assert_eq!(info.bus_type, BusType::Main);
    assert_eq!(info.flags, BusFlags::DefaultActive);
    assert_eq!(RoutingInfo::default(), RoutingInfo { media_type: MediaType::Audio, bus_index: 0, channel: 0 });
    assert_eq!(MAX_BLOCK_SIZE, 2048);
}

#[test]
fn parameter_changes_are_empty() {
    let changes = HostParameterChanges::new();
    assert_eq!(changes.get_parameter_count(), 0);
    assert_eq!(changes.get_parameter_data(0), 0);
    assert_eq!(changes.get_parameter_data(5), 0);
    assert_eq!(changes.add_parameter_data(42), (0, None));
    let slots = changes.vtable();
    assert_eq!(slots.len(), 6);
    assert_eq!(slots[0], VtableSlot { interface: InterfaceKind::FUnknown, index: 0 });
    assert_eq!(slots[3], VtableSlot { interface: InterfaceKind::IParameterChanges, index: 0 });
    assert_eq!(slots[5], VtableSlot { interface: InterfaceKind::IParameterChanges, index: 2 });
}

#[test]
fn wav_format_follows_the_stream() {
    assert_eq!(sample_format(true), SampleFormat::Float);
    assert_eq!(sample_format(false), SampleFormat::Int);
    assert_eq!(
        wav_spec_from_config(2, 48000, 4, true),
        WavSpec {
            channels: 2,
            sample_rate: 48000,
            bits_per_sample: 32,
            sample_format: SampleFormat::Float
        }
    );
    assert_eq!(wav_spec_from_config(1, 44100, 2, false).bits_per_sample, 16);
    assert_eq!(wav_spec_from_config(1, 44100, 2, false).sample_format, SampleFormat::Int);
    assert_eq!(wav_spec_from_config(1, 1, 8191, false).bits_per_sample, 65528);
    assert_eq!(wav_spec_from_config(1, 1, 8192, false).bits_per_sample, u16::MAX);
    assert_eq!(wav_spec_from_config(1, 1, usize::MAX, false).bits_per_sample, u16::MAX);
}

#[test]
fn write_data_fills_frames() {
    let mut out = [0i16; 7];
    write_data(&mut out, 2, &[5, 6, 7, 8]);
    assert_eq!(out, [5, 5, 6, 6, 7, 7, 0]);
    let mut out = [9i16; 6];
    write_data(&mut out, 3, &[1]);
    assert_eq!(out, [1, 1, 1, 9, 9, 9]);
    write_data(&mut out, 0, &[4]);
    assert_eq!(out, [1, 1, 1, 9, 9, 9]);
    write_data(&mut out, 1, &[]);
    assert_eq!(out, [1, 1, 1, 9, 9, 9]);
    write_data(&mut out, 7, &[2]);
    assert_eq!(out, [1, 1, 1, 9, 9, 9]);
}

#[test]
fn path_is_well_formed() {
    let mut path = AudioPath::new(2, wiring());
    assert!(path.is_wf());
    path.capture(&[1, 2, 3, 4]).unwrap();
    assert!(path.is_wf());
    path.channels = 3;
    assert!(!path.is_wf());
}

#[test]
fn abandoned_block_is_counted_as_dropped() {
    let mut path = AudioPath::new(2, wiring());
    assert_eq!(path.abandon(), 0);
    path.capture(&[1, 2, 3, 4]).unwrap();
    assert_eq!(path.abandon(), 0);
    assert_eq!(path.phase, BlockPhase::Idle);
    path.capture(&[1, 2, 3, 4]).unwrap();
    path.processed(1).unwrap();
    path.resampled(3).unwrap();
    assert_eq!(path.abandon(), 6);
    assert_eq!(path.overruns, 6);
    assert_eq!(path.phase, BlockPhase::Idle);
    assert_eq!(path.capture(&[1, 2]), Ok(1));
}
