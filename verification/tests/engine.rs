use voxea::engine::{
    cache_devices, find_device, find_name, is_exclusive, AudioEngine, Device, EngineError,
    HostDevices, HostProbe, Interpolation, PluginRegistry, StreamConfig, StreamState, Window,
};
use voxea::lifecycle::{Request, Response, Stage, VSTHostContext};
use voxea::status::TResult;

fn device(name: &str, channels: u16, sample_rate: u32) -> Device {
    Device { name: name.to_string(), config: StreamConfig { channels, sample_rate } }
}

fn probe(input: &str, output: &str) -> HostProbe {
    HostProbe { input: Some(device(input, 2, 48000)), output: Some(device(output, 2, 44100)) }
}

fn engine() -> AudioEngine {
    AudioEngine::new("WASAPI".to_string(), probe("Microphone", "Speakers"), Vec::new(), Vec::new())
        .unwrap()
}

fn names(list: &[&str]) -> Vec<String> {
    list.iter().map(|s| s.to_string()).collect()
}

fn constructed() -> VSTHostContext {
    let mut context = VSTHostContext::new();
    let mut request = context.request();
    while request != Request::Ready {
        let response = match request {
            Request::LoadModule => Response::Module(Ok(())),
            Request::CountClasses | Request::GetBusCount(_) => Response::Count(1),
            Request::GetClassInfo(_) => {
                let mut info = voxea::interface::PClassInfo::default();
                info.category[..18].copy_from_slice(b"Audio Module Class");
                Response::ClassInfo { status: TResult::ResultOk, info }
            }
            Request::GetControllerClassId => {
                Response::ClassId { status: TResult::ResultOk, cid: [1; 16] }
            }
            Request::GetFactory
            | Request::CreateInstance { .. }
            | Request::QueryInterface { .. }
            | Request::CreateView => Response::Pointer {
                status: TResult::ResultOk,
                address: 0x1000 + context.stage as usize,
            },
            _ => Response::Status(TResult::ResultOk),
        };
        request = context.step(response);
    }
    context
}

#[test]
fn new_engine() {
    let engine = engine();
    assert_eq!(engine.host, "WASAPI");
    assert_eq!(engine.input_device.name, "Microphone");
    assert_eq!(engine.output_device.name, "Speakers");
    assert_eq!(engine.input_device.config, StreamConfig { channels: 2, sample_rate: 48000 });
    assert_eq!(engine.input_stream, StreamState::Absent);
    assert_eq!(engine.output_stream, StreamState::Absent);
    assert_eq!(engine.block_size, 480);
    assert!(!engine.is_streaming());
    let none = HostProbe { input: None, output: None };
    assert_eq!(
        AudioEngine::new("X".to_string(), none, Vec::new(), Vec::new()).unwrap_err(),
        EngineError::NoInputDevice
    );
    let no_output = HostProbe { input: Some(device("a", 2, 1)), output: None };
    assert_eq!(
        AudioEngine::new("X".to_string(), no_output, Vec::new(), Vec::new()).unwrap_err(),
        EngineError::NoOutputDevice
    );
}

#[test]
fn plan_of_the_default_configuration() {
    let mut engine = engine();
    let plan = engine.run().unwrap();
    assert_eq!(plan.block_size, 480);
    assert_eq!(plan.channels, 2);
    assert_eq!(plan.ring_capacity, 1920);
    assert_eq!(plan.input_config, StreamConfig { channels: 2, sample_rate: 48000 });
    assert_eq!(plan.output_config, StreamConfig { channels: 2, sample_rate: 44100 });
    assert_eq!(plan.resampler.output_rate, 44100);
    assert_eq!(plan.resampler.input_rate, 48000);
    assert_eq!(plan.resampler.max_relative_ratio, 2);
    assert_eq!(plan.resampler.sinc_len, 256);
    assert_eq!(plan.resampler.cutoff_percent, 95);
    assert_eq!(plan.resampler.interpolation, Interpolation::Linear);
    assert_eq!(plan.resampler.oversampling_factor, 256);
    assert_eq!(plan.resampler.window, Window::BlackmanHarris2);
    assert_eq!(plan.resampler.chunk_size, 480);
    assert_eq!(plan.resampler.channels, 2);
    assert_eq!(engine.plan(), Ok(plan));
}

#[test]
fn plan_is_refused() {
    let mut engine = engine();
    assert_eq!(engine.set_block_size(2049), Err(EngineError::BlockTooLarge));
    assert_eq!(engine.set_block_size(0), Err(EngineError::BlockTooLarge));
    assert_eq!(engine.block_size, 480);
    assert_eq!(engine.set_block_size(2048), Ok(()));
    assert_eq!(engine.plan().unwrap().ring_capacity, 8192);
    engine.block_size = 2049;
    assert_eq!(engine.plan(), Err(EngineError::BlockTooLarge));
    engine.block_size = 0;
    assert_eq!(engine.plan(), Err(EngineError::BlockTooLarge));
    engine.block_size = 192;
    assert_eq!(engine.plan().unwrap().ring_capacity, 768);
    engine.input_device.config.channels = 3;
    assert_eq!(engine.plan(), Err(EngineError::UnsupportedChannels));
    engine.input_device.config.channels = 0;
    assert_eq!(engine.plan(), Err(EngineError::UnsupportedChannels));
    engine.input_device.config.channels = 1;
    assert_eq!(engine.plan().unwrap().ring_capacity, 384);
    engine.input_device.config.sample_rate = 0;
    assert_eq!(engine.plan(), Err(EngineError::UnsupportedSampleRate));
    engine.input_device.config.sample_rate = 48000;
    engine.output_device.config.sample_rate = 0;
    assert_eq!(engine.plan(), Err(EngineError::UnsupportedSampleRate));
    engine.output_device.config.sample_rate = 96000;
    engine.host = "ASIO".to_string();
    assert_eq!(engine.plan(), Err(EngineError::DevicesDiffer));
    engine.output_device = engine.input_device.clone();
    assert!(engine.plan().is_ok());
}

#[test]
fn run_drops_streams_and_started_records_them() {
    let mut engine = engine();
    engine.started(true, true);
    assert!(engine.is_streaming());
    assert_eq!(engine.input_stream, StreamState::Playing);
    assert!(engine.run().is_ok());
    assert!(!engine.is_streaming());
    assert_eq!(engine.input_stream, StreamState::Absent);
    assert_eq!(engine.output_stream, StreamState::Absent);
    engine.started(true, false);
    assert!(!engine.is_streaming());
    assert_eq!(engine.input_stream, StreamState::Playing);
    assert_eq!(engine.output_stream, StreamState::Absent);
}

#[test]
fn host_switch() {
    let mut engine = engine();
    engine.run().unwrap();
    engine.started(true, true);
    let plan = engine.select_host("ASIO", Some(probe("Focusrite", "Realtek"))).unwrap();
    assert!(!engine.is_streaming());
    engine.started(true, true);
    assert_eq!(engine.host, "ASIO");
    assert_eq!(engine.input_device.name, "Focusrite");
    assert_eq!(engine.output_device.name, "Focusrite");
    assert_eq!(engine.output_device.config, engine.input_device.config);
    assert_eq!(plan.output_config, plan.input_config);
    assert!(engine.is_streaming());
    engine.select_host("WASAPI", Some(probe("Microphone", "Speakers"))).unwrap();
    engine.started(true, true);
    assert_eq!(engine.host, "WASAPI");
    assert_eq!(engine.input_device.name, "Microphone");
    assert_eq!(engine.output_device.name, "Speakers");
    assert!(engine.is_streaming());
}

#[test]
fn select_host_twice_is_select_host_once() {
    let mut once = engine();
    let mut twice = engine();
    let first = once.select_host("ASIO", Some(probe("Focusrite", "Realtek")));
    twice.select_host("ASIO", Some(probe("Focusrite", "Realtek"))).unwrap();
    twice.started(true, true);
    let second = twice.select_host("ASIO", Some(probe("Focusrite", "Realtek")));
    assert_eq!(first, second);
    assert_eq!(once.host, twice.host);
    assert_eq!(once.input_device.name, twice.input_device.name);
    assert_eq!(once.output_device.name, twice.output_device.name);
    assert_eq!(once.input_device.config, twice.input_device.config);
    assert_eq!(once.output_device.config, twice.output_device.config);
    assert_eq!(once.input_stream, twice.input_stream);
    assert_eq!(once.output_stream, twice.output_stream);
    assert_eq!(once.block_size, twice.block_size);
}

#[test]
fn host_that_cannot_be_had() {
    let mut engine = engine();
    engine.started(true, true);
    assert_eq!(engine.select_host("JACK", None), Err(EngineError::UnknownHost));
    assert_eq!(engine.host, "WASAPI");
    assert_eq!(engine.input_device.name, "Microphone");
    assert!(!engine.is_streaming());
    assert_eq!(engine.input_stream, StreamState::Absent);
    assert_eq!(
        engine.select_host("ALSA", Some(HostProbe { input: None, output: Some(device("o", 2, 1)) })),
        Err(EngineError::NoInputDevice)
    );
    assert_eq!(
        engine.select_host("ALSA", Some(HostProbe { input: Some(device("i", 2, 1)), output: None })),
        Err(EngineError::NoOutputDevice)
    );
    assert_eq!(engine.host, "WASAPI");
    assert!(engine
        .select_host("ASIO", Some(HostProbe { input: Some(device("i", 2, 1)), output: None }))
        .is_ok());
    assert_eq!(engine.output_device.name, "i");
}

#[test]
fn select_devices() {
    let inputs = vec![device("Line", 2, 48000), device("USB", 1, 44100), device("USB", 2, 96000)];
    let outputs = vec![device("Speakers", 2, 48000), device("Phones", 2, 44100)];
    let mut engine = engine();
    engine.started(true, true);
    let plan = engine.select_input_device("USB".to_string(), &inputs).unwrap();
    assert!(!engine.is_streaming());
    assert_eq!(engine.input_device.name, "USB");
    assert_eq!(engine.input_device.config, StreamConfig { channels: 1, sample_rate: 44100 });
    assert_eq!(engine.output_device.name, "Speakers");
    assert_eq!(plan.channels, 1);
    assert_eq!(plan.ring_capacity, 960);
    engine.started(true, true);
    engine.select_output_device("Phones".to_string(), &outputs).unwrap();
    assert_eq!(engine.output_device.name, "Phones");
    assert_eq!(engine.input_device.name, "USB");
    engine.started(true, true);
    assert!(engine.is_streaming());
    assert_eq!(
        engine.select_input_device("Nothing".to_string(), &inputs),
        Err(EngineError::UnknownDevice)
    );
    assert_eq!(engine.input_device.name, "USB");
    assert!(!engine.is_streaming());
    assert_eq!(
        engine.select_output_device("Nothing".to_string(), &outputs),
        Err(EngineError::UnknownDevice)
    );
    assert_eq!(engine.output_device.name, "Phones");
}

#[test]
fn select_devices_on_exclusive_host_mirrors() {
    let devices = vec![device("Focusrite", 2, 48000), device("Behringer", 2, 44100)];
    let mut engine = engine();
    engine.select_host("ASIO", Some(probe("Focusrite", "Realtek"))).unwrap();
    engine.select_input_device("Behringer".to_string(), &devices).unwrap();
    assert_eq!(engine.input_device.name, "Behringer");
    assert_eq!(engine.output_device.name, "Behringer");
    assert_eq!(engine.output_device.config.sample_rate, 44100);
    engine.select_output_device("Focusrite".to_string(), &devices).unwrap();
    assert_eq!(engine.input_device.name, "Focusrite");
    assert_eq!(engine.output_device.name, "Focusrite");
    assert_eq!(engine.input_device.config.sample_rate, 48000);
}

#[test]
fn finding_names_and_devices() {
    let list = names(&["a", "b", "c", "b"]);
    assert_eq!(find_name(&list, "a"), Some(0));
    assert_eq!(find_name(&list, "b"), Some(1));
    assert_eq!(find_name(&list, "d"), None);
    assert_eq!(find_name(&Vec::new(), "a"), None);
    let devices = vec![device("x", 1, 1), device("y", 2, 2), device("y", 3, 3)];
    assert_eq!(find_device(&devices, "y").unwrap().config.channels, 2);
    assert!(find_device(&devices, "z").is_none());
    assert!(is_exclusive("ASIO"));
    assert!(!is_exclusive("asio"));
    assert!(!is_exclusive("WASAPI"));
    assert!(!is_exclusive(""));
}

#[test]
fn device_names_are_cached_per_host() {
    let mut cached: Vec<HostDevices> = Vec::new();
    cache_devices(&mut cached, "ASIO".to_string(), names(&["Focusrite"]));
    cache_devices(&mut cached, "WASAPI".to_string(), names(&["Microphone", "Line"]));
    cache_devices(&mut cached, "ASIO".to_string(), names(&["Behringer"]));
    assert_eq!(cached.len(), 2);
    assert_eq!(cached[0].host, "ASIO");
    assert_eq!(cached[0].devices, names(&["Focusrite", "Behringer"]));
    assert_eq!(cached[1].host, "WASAPI");
    assert_eq!(cached[1].devices, names(&["Microphone", "Line"]));
}

#[test]
fn enumeration_uses_the_snapshot_on_exclusive_hosts() {
    let mut inputs: Vec<HostDevices> = Vec::new();
    cache_devices(&mut inputs, "ASIO".to_string(), names(&["Focusrite", "Behringer"]));
    cache_devices(&mut inputs, "WASAPI".to_string(), names(&["Microphone"]));
    let mut outputs: Vec<HostDevices> = Vec::new();
    cache_devices(&mut outputs, "WASAPI".to_string(), names(&["Speakers"]));
    let mut engine =
        AudioEngine::new("WASAPI".to_string(), probe("Microphone", "Speakers"), inputs, outputs)
            .unwrap();
    assert_eq!(engine.enumerate_input_devices(names(&["Live"])), names(&["Live"]));
    assert_eq!(engine.enumerate_output_devices(names(&["Out"])), names(&["Out"]));
    engine.select_host("ASIO", Some(probe("Focusrite", "Focusrite"))).unwrap();
    assert_eq!(
        engine.enumerate_input_devices(names(&["Focusrite"])),
        names(&["Focusrite", "Behringer"])
    );
    assert_eq!(engine.enumerate_output_devices(names(&["Focusrite"])), names(&["Focusrite"]));
}

#[test]
fn registry_takes_plugins_that_can_process() {
    let mut registry = PluginRegistry::new();
    assert_eq!(registry.len(), 0);
    assert_eq!(registry.processors(), Vec::<usize>::new());
    let unfinished = VSTHostContext::new();
    assert!(!PluginRegistry::accepts(&unfinished));
    assert!(registry.add_plugin(unfinished, TResult::ResultOk).is_some());
    assert_eq!(registry.len(), 0);

    let plugin = constructed();
    assert_eq!(plugin.stage, Stage::Ready);
    assert!(PluginRegistry::accepts(&plugin));
    assert!(registry.add_plugin(plugin, TResult::ResultOk).is_none());
    assert_eq!(registry.len(), 1);
    assert!(registry.plugins[0].processing);
    assert_eq!(registry.processors(), vec![plugin.processor.unwrap()]);

    assert!(registry.add_plugin(plugin, TResult::InternalError).is_none());
    assert_eq!(registry.len(), 2);
    assert!(!registry.plugins[1].processing);
    assert_eq!(registry.processors(), vec![plugin.processor.unwrap()]);

    let mut no_bus = plugin;
    no_bus.output_buses = 0;
    assert!(registry.add_plugin(no_bus, TResult::ResultOk).is_some());
    assert_eq!(registry.len(), 2);
}

#[test]
fn add_then_take_restores_registry() {
    let mut registry = PluginRegistry::new();
    assert!(registry.take_plugin().is_none());
    registry.add_plugin(constructed(), TResult::ResultOk);
    let before = registry.len();
    let first = registry.plugins[0].processor;
    registry.add_plugin(constructed(), TResult::ResultOk);
    assert_eq!(registry.len(), before + 1);
    let taken = registry.take_plugin().unwrap();
    assert!(taken.processing);
    assert_eq!(registry.len(), before);
    assert_eq!(registry.plugins[0].processor, first);
}

#[test]
fn processor_by_place() {
    let mut registry = PluginRegistry::new();
    assert_eq!(registry.processor(0), None);
    let plugin = constructed();
    registry.add_plugin(plugin, TResult::ResultOk);
    registry.add_plugin(plugin, TResult::NotImplemented);
    assert_eq!(registry.processor(0), plugin.processor);
    assert_eq!(registry.processor(1), None);
    assert_eq!(registry.processor(2), None);
}

#[test]
fn texts_are_compared_by_their_characters() {
    assert!(voxea::text::same_text("ASIO", "ASIO"));
    assert!(!voxea::text::same_text("ASIO", "ASIO "));
    assert!(!voxea::text::same_text("", "a"));
    assert!(voxea::text::same_text("", ""));
}
