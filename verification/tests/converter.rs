use rubato::{
    Resampler, SincFixedIn, SincInterpolationParameters, SincInterpolationType, WindowFunction,
};
use voxea::engine::{AudioEngine, Device, HostProbe, Interpolation, StreamConfig, Window};
use voxea::path::{AudioPath, OutputPath, Wiring};
use voxea::ring::SampleRing;

fn planned_converter(input_rate: u32, output_rate: u32) -> (SincFixedIn<f32>, usize, usize) {
    let probe = HostProbe {
        input: Some(Device {
            name: "in".to_string(),
            config: StreamConfig { channels: 2, sample_rate: input_rate },
        }),
        output: Some(Device {
            name: "out".to_string(),
            config: StreamConfig { channels: 2, sample_rate: output_rate },
        }),
    };
    let mut engine = AudioEngine::new("host".to_string(), probe, Vec::new(), Vec::new()).unwrap();
    let plan = engine.run().unwrap();
    let config = plan.resampler;
    let parameters = SincInterpolationParameters {
        sinc_len: config.sinc_len,
        f_cutoff: config.cutoff_percent as f32 / 100.0,
        interpolation: match config.interpolation {
            Interpolation::Linear => SincInterpolationType::Linear,
        },
        oversampling_factor: config.oversampling_factor,
        window: match config.window {
            Window::BlackmanHarris2 => WindowFunction::BlackmanHarris2,
        },
    };
    let converter = SincFixedIn::<f32>::new(
        config.output_rate as f64 / config.input_rate as f64,
        config.max_relative_ratio as f64,
        parameters,
        config.chunk_size,
        config.channels,
    )
    .unwrap();
    (converter, plan.block_size, plan.ring_capacity)
}

fn wiring() -> Wiring {
    Wiring { inputs: 1, outputs: 2, input_channels: 3, output_channels: 4, input_parameter_changes: 5 }
}

/// One block through the path, with `gain` standing for the plugin and the
/// converter of the plan between the output array and the ring.
fn block(
    path: &mut AudioPath,
    converter: &mut SincFixedIn<f32>,
    ring: &mut SampleRing,
    data: &[f32],
    gain: Option<f32>,
) {
    let bits: Vec<u32> = data.iter().map(|s| s.to_bits()).collect();
    let frames = path.capture(&bits).unwrap();
    if let Some(gain) = gain {
        for channel in 0..2 {
            let source = *path.input_data.as_ref(channel);
            for (o, i) in path.output_data.as_mut_ref(channel)[..frames].iter_mut().zip(&source) {
                *o = (f32::from_bits(*i) * gain).to_bits();
            }
        }
    }
    path.processed(if gain.is_some() { 1 } else { 0 }).unwrap();
    let inputs: Vec<Vec<f32>> = (0..2)
        .map(|c| path.output_data.as_ref(c)[..frames].iter().map(|b| f32::from_bits(*b)).collect())
        .collect();
    let mut outputs = vec![vec![0.0f32; 2048]; 2];
    let (_, produced) = converter.process_into_buffer(&inputs, &mut outputs, None).unwrap();
    for channel in 0..2 {
        for (slot, sample) in
            path.resampled_data.as_mut_ref(channel).iter_mut().zip(&outputs[channel][..produced])
        {
            *slot = sample.to_bits();
        }
    }
    path.resampled(produced).unwrap();
    path.enqueue(ring).unwrap();
}

#[test]
fn silence_through_the_planned_converter() {
    let (mut converter, block_size, capacity) = planned_converter(48000, 48000);
    assert_eq!(block_size, 480);
    assert_eq!(capacity, 1920);
    let mut ring = SampleRing::new(capacity).unwrap();
    let mut path = AudioPath::new(2, wiring());
    let mut output = OutputPath::new();
    let silence = vec![0.0f32; 2 * block_size];
    let mut produced = 0;
    let mut zeros = 0;
    let mut loudest = 0.0f32;
    for _ in 0..100 {
        block(&mut path, &mut converter, &mut ring, &silence, None);
        let mut out = vec![1u32; 2 * block_size];
        output.render(&mut ring, &mut out);
        for frame in out.chunks(2) {
            produced += 1;
            let sample = f32::from_bits(frame[0]);
            if sample == 0.0 {
                zeros += 1;
            }
            loudest = loudest.max(sample.abs());
        }
    }
    assert_eq!(produced, 48000);
    assert!(zeros * 100 >= produced * 95);
    assert!(loudest <= 1e-4);
    assert_eq!(path.overruns, 0);
}

#[test]
fn gain_through_the_planned_converter() {
    let (mut converter, block_size, capacity) = planned_converter(48000, 48000);
    let mut ring = SampleRing::new(capacity).unwrap();
    let mut path = AudioPath::new(2, wiring());
    let mut output = OutputPath::new();
    let mut sine = Vec::new();
    for i in 0..block_size {
        let s = (i as f32 * 440.0 * 2.0 * std::f32::consts::PI / 48000.0).sin();
        sine.push(s);
        sine.push(s);
    }
    block(&mut path, &mut converter, &mut ring, &sine, Some(0.5));
    let mut out = vec![0u32; 2 * block_size];
    output.render(&mut ring, &mut out);
    let peak = out.iter().map(|b| f32::from_bits(*b).abs()).fold(0.0f32, f32::max);
    assert!((0.49..=0.51).contains(&peak), "{}", peak);
}

#[test]
fn converter_output_stays_within_twice_the_block() {
    for (input_rate, output_rate) in [(48000, 44100), (44100, 48000), (48000, 96000), (48000, 24000)] {
        let (mut converter, block_size, capacity) = planned_converter(input_rate, output_rate);
        let mut ring = SampleRing::new(capacity).unwrap();
        let mut path = AudioPath::new(2, wiring());
        let silence = vec![0.0f32; 2 * block_size];
        for _ in 0..5 {
            block(&mut path, &mut converter, &mut ring, &silence, None);
            assert!(path.resampled_frames <= 2 * block_size);
            let mut out = vec![0u32; 2 * 2048];
            ring.drain_into(&mut out);
        }
    }
}
