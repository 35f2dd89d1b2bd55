//! The control side of the audio engine: which host and devices are
//! selected, what the stream pair is built from, and the registry of
//! plugins.
//!
//! The engine decides on plain values. Its caller asks the audio driver
//! what it needs to know, hands that in, and builds the streams that the
//! engine plans.

use crate::lifecycle::VSTHostContext;
use crate::path::DEFAULT_BLOCK_SIZE;
use crate::processing::{CHANNELS, MAX_BLOCK_SIZE};
use crate::status::TResult;
use crate::text::same_text;
use vstd::prelude::*;

verus! {

/// What a stream is configured with.
#[derive(Debug, Clone, Copy, PartialEq, Eq, Structural)]
pub struct StreamConfig {
    pub channels: u16,
    /// In hertz.
    pub sample_rate: u32,
}

/// A device of an audio host, with the stream configuration that it
/// prefers.
#[derive(Debug)]
pub struct Device {
    pub name: String,
    pub config: StreamConfig,
}

/// What a `Device` holds.
pub struct DeviceModel {
    pub name: Seq<char>,
    pub config: StreamConfig,
}

impl View for Device {
    type V = DeviceModel;

    open spec fn view(&self) -> DeviceModel {
        DeviceModel { name: self.name@, config: self.config }
    }
}

impl Clone for Device {
    fn clone(&self) -> (copy: Device)
        ensures
            copy == *self,
    {
        Device { name: self.name.clone(), config: self.config }
    }
}

/// The default devices of a host, as far as it has any.
#[derive(Debug)]
pub struct HostProbe {
    pub input: Option<Device>,
    pub output: Option<Device>,
}

/// What a `HostProbe` holds.
pub struct HostProbeModel {
    pub input: Option<DeviceModel>,
    pub output: Option<DeviceModel>,
}

pub open spec fn spec_device_view(device: Option<Device>) -> Option<DeviceModel> {
    match device {
        Some(device) => Some(device@),
        None => None,
    }
}

impl View for HostProbe {
    type V = HostProbeModel;

    open spec fn view(&self) -> HostProbeModel {
        HostProbeModel {
            input: spec_device_view(self.input),
            output: spec_device_view(self.output),
        }
    }
}

pub open spec fn spec_probe_view(probe: Option<HostProbe>) -> Option<HostProbeModel> {
    match probe {
        Some(probe) => Some(probe@),
        None => None,
    }
}

/// Whether the engine holds a stream. A stream that it holds plays.
#[derive(Debug, Clone, Copy, PartialEq, Eq, Structural)]
pub enum StreamState {
    Absent,
    Playing,
}

/// Why the engine could not do what it was asked.
#[derive(Debug, Clone, Copy, PartialEq, Eq, Structural)]
pub enum EngineError {
    /// No host of that name could be had.
    UnknownHost,
    /// The host has no device of that name.
    UnknownDevice,
    /// The host has no default input device.
    NoInputDevice,
    /// The host has no default output device.
    NoOutputDevice,
    /// The host works on one device only, and input and output differ.
    DevicesDiffer,
    /// The input has no channel, or more than the engine has room for.
    UnsupportedChannels,
    /// The block has no frame, or more than `MAX_BLOCK_SIZE`.
    BlockTooLarge,
    /// A sample rate of zero.
    UnsupportedSampleRate,
}

/// How the sinc interpolation picks between its precomputed points.
#[derive(Debug, Clone, Copy, PartialEq, Eq, Structural)]
pub enum Interpolation {
    Linear,
}

/// The window that shapes the sinc.
#[derive(Debug, Clone, Copy, PartialEq, Eq, Structural)]
pub enum Window {
    BlackmanHarris2,
}

/// How the sample rate converter is to be made. The conversion ratio is
/// `output_rate` to `input_rate`; the cutoff is held in hundredths.
#[derive(Debug, Clone, Copy, PartialEq, Eq, Structural)]
pub struct ResamplerConfig {
    pub output_rate: u32,
    pub input_rate: u32,
    pub max_relative_ratio: u32,
    pub sinc_len: usize,
    pub cutoff_percent: u32,
    pub interpolation: Interpolation,
    pub oversampling_factor: usize,
    pub window: Window,
    /// The fixed number of frames that the converter takes at a time.
    pub chunk_size: usize,
    pub channels: usize,
}

/// What the stream pair is to be built with.
#[derive(Debug, Clone, Copy, PartialEq, Eq, Structural)]
pub struct StreamPlan {
    pub input_config: StreamConfig,
    pub output_config: StreamConfig,
    pub block_size: usize,
    pub channels: usize,
    /// Room for two blocks of every channel.
    pub ring_capacity: usize,
    pub resampler: ResamplerConfig,
}

/// The device names of one host, as they were found at startup.
#[derive(Debug)]
pub struct HostDevices {
    pub host: String,
    pub devices: Vec<String>,
}

/// The selection state of the engine.
#[derive(Debug)]
pub struct AudioEngine {
    /// The name of the selected host.
    pub host: String,
    pub input_device: Device,
    pub output_device: Device,
    pub input_stream: StreamState,
    pub output_stream: StreamState,
    /// The number of frames of a block.
    pub block_size: usize,
    pub cached_input_devices: Vec<HostDevices>,
    pub cached_output_devices: Vec<HostDevices>,
}

/// What the selection state of an `AudioEngine` holds.
pub struct EngineModel {
    pub host: Seq<char>,
    pub input_device: DeviceModel,
    pub output_device: DeviceModel,
    pub input_stream: StreamState,
    pub output_stream: StreamState,
    pub block_size: usize,
}

impl View for AudioEngine {
    type V = EngineModel;

    open spec fn view(&self) -> EngineModel {
        EngineModel {
            host: self.host@,
            input_device: self.input_device@,
            output_device: self.output_device@,
            input_stream: self.input_stream,
            output_stream: self.output_stream,
            block_size: self.block_size,
        }
    }
}

/// The texts of a list of names.
pub open spec fn spec_names(names: Seq<String>) -> Seq<Seq<char>> {
    Seq::new(names.len(), |i: int| names[i]@)
}

/// The name of the host that works on one device at a time.
pub open spec fn spec_exclusive_host() -> Seq<char> {
    seq!['A', 'S', 'I', 'O']
}

/// Whether a host works on one device only, so that input and output must
/// be the same device.
pub open spec fn spec_is_exclusive(host: Seq<char>) -> bool {
    host == spec_exclusive_host()
}

/// The first place at which a name stands in a list.
pub open spec fn spec_find_name(names: Seq<Seq<char>>, wanted: Seq<char>) -> Option<int>
    decreases names.len(),
{
    if names.len() == 0 {
        None
    } else if names[0] == wanted {
        Some(0)
    } else {
        match spec_find_name(names.drop_first(), wanted) {
            Some(i) => Some(i + 1),
            None => None,
        }
    }
}

/// What finding says: the place holds the name, and no earlier one does;
/// nothing is found only if no place holds it.
pub proof fn lemma_find_name(names: Seq<Seq<char>>, wanted: Seq<char>)
    ensures
        match spec_find_name(names, wanted) {
            Some(i) => 0 <= i < names.len() && names[i] == wanted && forall|j: int|
                0 <= j < i ==> names[j] != wanted,
            None => forall|j: int| 0 <= j < names.len() ==> names[j] != wanted,
        },
    decreases names.len(),
{
    if names.len() > 0 && names[0] != wanted {
        let rest = names.drop_first();
        lemma_find_name(rest, wanted);
        match spec_find_name(rest, wanted) {
            Some(i) => {
                assert forall|j: int| 0 <= j < i + 1 implies names[j] != wanted by {
                    if j > 0 {
                        assert(rest[j - 1] == names[j]);
                    }
                }
            },
            None => {
                assert forall|j: int| 0 <= j < names.len() implies names[j] != wanted by {
                    if j > 0 {
                        assert(rest[j - 1] == names[j]);
                    }
                }
            },
        }
    }
}

/// Whether a host works on one device only.
pub fn is_exclusive(host: &str) -> (yes: bool)
    ensures
        yes == spec_is_exclusive(host@),
{
    proof {
        reveal_strlit("ASIO");
        assert("ASIO"@ =~= spec_exclusive_host());
    }
    same_text(host, "ASIO")
}

/// Finds the first place at which a name stands in a list.
pub fn find_name(names: &Vec<String>, wanted: &str) -> (place: Option<usize>)
    ensures
        match place {
            Some(i) => spec_find_name(spec_names(names@), wanted@) == Some(i as int),
            None => spec_find_name(spec_names(names@), wanted@) is None,
        },
{
    let ghost all = spec_names(names@);
    let mut i: usize = 0;
    proof {
        assert(all.skip(0) =~= all);
    }
    while i < names.len()
        invariant
            i <= names@.len(),
            all == spec_names(names@),
            match spec_find_name(all.skip(i as int), wanted@) {
                Some(k) => spec_find_name(all, wanted@) == Some(k + i),
                None => spec_find_name(all, wanted@) is None,
            },
        decreases names@.len() - i,
    {
        let ghost rest = all.skip(i as int);
        assert(rest[0] == names@[i as int]@);
        if same_text(names[i].as_str(), wanted) {
            return Some(i);
        }
        proof {
            assert(rest.drop_first() =~= all.skip(i + 1));
        }
        i += 1;
    }
    proof {
        assert(all.skip(i as int).len() == 0);
    }
    None
}

/// The device of a name among devices: the first that bears it.
pub open spec fn spec_find_device(devices: Seq<DeviceModel>, wanted: Seq<char>) -> Option<
    DeviceModel,
>
    decreases devices.len(),
{
    if devices.len() == 0 {
        None
    } else if devices[0].name == wanted {
        Some(devices[0])
    } else {
        spec_find_device(devices.drop_first(), wanted)
    }
}

pub open spec fn spec_device_views(devices: Seq<Device>) -> Seq<DeviceModel> {
    Seq::new(devices.len(), |i: int| devices[i]@)
}

/// Finds the first device that bears a name.
pub fn find_device(devices: &Vec<Device>, wanted: &str) -> (found: Option<Device>)
    ensures
        spec_device_view(found) == spec_find_device(spec_device_views(devices@), wanted@),
{
    let ghost all = spec_device_views(devices@);
    let mut i: usize = 0;
    proof {
        assert(all.skip(0) =~= all);
    }
    while i < devices.len()
        invariant
            i <= devices@.len(),
            all == spec_device_views(devices@),
            spec_find_device(all.skip(i as int), wanted@) == spec_find_device(all, wanted@),
        decreases devices@.len() - i,
    {
        let ghost rest = all.skip(i as int);
        assert(rest[0] == devices@[i as int]@);
        if same_text(devices[i].name.as_str(), wanted) {
            return Some(devices[i].clone());
        }
        proof {
            assert(rest.drop_first() =~= all.skip(i + 1));
        }
        i += 1;
    }
    proof {
        assert(all.skip(i as int).len() == 0);
    }
    None
}

/// How the converter is made for a plan: sinc interpolation of length 256
/// with a cutoff of 0.95, a Blackman-Harris window, linear interpolation
/// between the points and 256 times oversampling; a fixed input block; an
/// output of at most twice that.
pub open spec fn spec_resampler(
    input: StreamConfig,
    output: StreamConfig,
    block_size: usize,
) -> ResamplerConfig {
    ResamplerConfig {
        output_rate: output.sample_rate,
        input_rate: input.sample_rate,
        max_relative_ratio: 2,
        sinc_len: 256,
        cutoff_percent: 95,
        interpolation: Interpolation::Linear,
        oversampling_factor: 256,
        window: Window::BlackmanHarris2,
        chunk_size: block_size,
        channels: input.channels as usize,
    }
}

/// The outcome of planning the stream pair for a selection.
pub open spec fn spec_plan(engine: EngineModel) -> Result<StreamPlan, EngineError> {
    let input = engine.input_device.config;
    let output = engine.output_device.config;
    if spec_is_exclusive(engine.host) && engine.input_device.name != engine.output_device.name {
        Err(EngineError::DevicesDiffer)
    } else if input.channels == 0 || input.channels > CHANNELS {
        Err(EngineError::UnsupportedChannels)
    } else if engine.block_size == 0 || engine.block_size > MAX_BLOCK_SIZE {
        Err(EngineError::BlockTooLarge)
    } else if input.sample_rate == 0 || output.sample_rate == 0 {
        Err(EngineError::UnsupportedSampleRate)
    } else {
        Ok(
            StreamPlan {
                input_config: input,
                output_config: output,
                block_size: engine.block_size,
                channels: input.channels as usize,
                ring_capacity: (2 * engine.block_size * input.channels) as usize,
                resampler: spec_resampler(input, output, engine.block_size),
            },
        )
    }
}

/// The engine with both streams paused and dropped.
pub open spec fn spec_stopped(engine: EngineModel) -> EngineModel {
    EngineModel {
        input_stream: StreamState::Absent,
        output_stream: StreamState::Absent,
        ..engine
    }
}

/// The engine after it was told how building and starting the planned
/// streams went.
pub open spec fn spec_started(engine: EngineModel, input: bool, output: bool) -> EngineModel {
    EngineModel {
        input_stream: if input {
            StreamState::Playing
        } else {
            StreamState::Absent
        },
        output_stream: if output {
            StreamState::Playing
        } else {
            StreamState::Absent
        },
        ..engine
    }
}

/// Whether the engine holds its one input stream and its one output stream,
/// both playing.
pub open spec fn spec_streaming(engine: EngineModel) -> bool {
    engine.input_stream == StreamState::Playing && engine.output_stream == StreamState::Playing
}

/// The selection after a host was selected: both streams are gone; if the
/// host and its default devices were found, they are the selection, with
/// the input device standing for the output device too on a host that
/// works on one device only.
pub open spec fn spec_select_host(
    engine: EngineModel,
    host: Seq<char>,
    found: Option<HostProbeModel>,
) -> EngineModel {
    let stopped = spec_stopped(engine);
    match found {
        None => stopped,
        Some(probe) => match probe.input {
            None => stopped,
            Some(input) => if spec_is_exclusive(host) {
                EngineModel { host, input_device: input, output_device: input, ..stopped }
            } else {
                match probe.output {
                    None => stopped,
                    Some(output) => EngineModel {
                        host,
                        input_device: input,
                        output_device: output,
                        ..stopped
                    },
                }
            },
        },
    }
}

/// What selecting a host answers: the plan of the new stream pair, or why
/// there is none.
pub open spec fn spec_select_host_result(
    engine: EngineModel,
    host: Seq<char>,
    found: Option<HostProbeModel>,
) -> Result<StreamPlan, EngineError> {
    match found {
        None => Err(EngineError::UnknownHost),
        Some(probe) => if probe.input is None {
            Err(EngineError::NoInputDevice)
        } else if !spec_is_exclusive(host) && probe.output is None {
            Err(EngineError::NoOutputDevice)
        } else {
            spec_plan(spec_select_host(engine, host, found))
        },
    }
}

/// The selection after an input device was selected among the devices of
/// the host: both streams are gone; if a device bears the name, it is the
/// input device, and on a host that works on one device only the output
/// device too.
pub open spec fn spec_select_input_device(
    engine: EngineModel,
    name: Seq<char>,
    devices: Seq<DeviceModel>,
) -> EngineModel {
    let stopped = spec_stopped(engine);
    match spec_find_device(devices, name) {
        None => stopped,
        Some(device) => if spec_is_exclusive(engine.host) {
            EngineModel { input_device: device, output_device: device, ..stopped }
        } else {
            EngineModel { input_device: device, ..stopped }
        },
    }
}

/// The selection after an output device was selected; as for an input
/// device, with the directions exchanged.
pub open spec fn spec_select_output_device(
    engine: EngineModel,
    name: Seq<char>,
    devices: Seq<DeviceModel>,
) -> EngineModel {
    let stopped = spec_stopped(engine);
    match spec_find_device(devices, name) {
        None => stopped,
        Some(device) => if spec_is_exclusive(engine.host) {
            EngineModel { input_device: device, output_device: device, ..stopped }
        } else {
            EngineModel { output_device: device, ..stopped }
        },
    }
}

/// The device names that the engine shows for its host: on a host that
/// works on one device only the names found at startup, as far as there are
/// any for it, else the names that the host reports now.
pub open spec fn spec_enumerate(
    host: Seq<char>,
    cached: Seq<HostDevices>,
    live: Seq<Seq<char>>,
) -> Seq<Seq<char>> {
    if spec_is_exclusive(host) {
        match spec_find_name(Seq::new(cached.len(), |i: int| cached[i].host@), host) {
            Some(i) => spec_names(cached[i].devices@),
            None => live,
        }
    } else {
        live
    }
}

fn host_names(cached: &Vec<HostDevices>) -> (names: Vec<String>)
    ensures
        spec_names(names@) == Seq::new(cached@.len(), |i: int| cached@[i].host@),
{
    let mut names: Vec<String> = Vec::new();
    let mut i: usize = 0;
    while i < cached.len()
        invariant
            i <= cached@.len(),
            names@.len() == i,
            forall|j: int| 0 <= j < i ==> names@[j]@ == cached@[j].host@,
        decreases cached@.len() - i,
    {
        names.push(cached[i].host.clone());
        i += 1;
    }
    assert(spec_names(names@) =~= Seq::new(cached@.len(), |i: int| cached@[i].host@));
    names
}

fn copy_names(names: &Vec<String>) -> (copy: Vec<String>)
    ensures
        spec_names(copy@) == spec_names(names@),
{
    let mut copy: Vec<String> = Vec::new();
    let mut i: usize = 0;
    while i < names.len()
        invariant
            i <= names@.len(),
            copy@.len() == i,
            forall|j: int| 0 <= j < i ==> copy@[j]@ == names@[j]@,
        decreases names@.len() - i,
    {
        copy.push(names[i].clone());
        i += 1;
    }
    assert(spec_names(copy@) =~= spec_names(names@));
    copy
}

/// Records the device names of a host as they were found at startup. A
/// host that is recorded already gets the names added to its own.
pub fn cache_devices(cached: &mut Vec<HostDevices>, host: String, devices: Vec<String>)
    ensures
        match spec_find_name(Seq::new(old(cached)@.len(), |i: int| old(cached)@[i].host@), host@) {
            Some(at) => {
                &&& final(cached)@.len() == old(cached)@.len()
                &&& final(cached)@[at].host@ == host@
                &&& spec_names(final(cached)@[at].devices@) == spec_names(
                    old(cached)@[at].devices@,
                ) + spec_names(devices@)
                &&& forall|i: int|
                    0 <= i < old(cached)@.len() && i != at ==> final(cached)@[i] == old(cached)@[i]
            },
            None => {
                &&& final(cached)@.len() == old(cached)@.len() + 1
                &&& final(cached)@.last().host@ == host@
                &&& spec_names(final(cached)@.last().devices@) == spec_names(devices@)
                &&& forall|i: int|
                    0 <= i < old(cached)@.len() ==> final(cached)@[i] == old(cached)@[i]
            },
        },
{
    let names = host_names(cached);
    proof {
        lemma_find_name(spec_names(names@), host@);
    }
    match find_name(&names, host.as_str()) {
        Some(at) => {
            let ghost before = cached@[at as int].devices@;
            let mut i: usize = 0;
            while i < devices.len()
                invariant
                    i <= devices@.len(),
                    at < cached@.len(),
                    cached@.len() == old(cached)@.len(),
                    before == old(cached)@[at as int].devices@,
                    cached@[at as int].host == old(cached)@[at as int].host,
                    cached@[at as int].devices@.len() == before.len() + i,
                    forall|j: int|
                        0 <= j < before.len() ==> cached@[at as int].devices@[j] == before[j],
                    forall|j: int|
                        0 <= j < i ==> cached@[at as int].devices@[before.len() + j]@
                            == devices@[j]@,
                    forall|k: int|
                        0 <= k < old(cached)@.len() && k != at ==> cached@[k] == old(cached)@[k],
                decreases devices@.len() - i,
            {
                cached[at].devices.push(devices[i].clone());
                i += 1;
            }
            proof {
                assert(spec_names(cached@[at as int].devices@) =~= spec_names(before) + spec_names(
                    devices@,
                ));
            }
        },
        None => {
            cached.push(HostDevices { host, devices });
        },
    }
}

impl AudioEngine {
    /// An engine on the default host with its default devices, no streams,
    /// and blocks of `DEFAULT_BLOCK_SIZE` frames.
    ///
    /// It is refused if the host lacks a default device in one of the
    /// directions; the input is looked at first.
    pub fn new(
        host: String,
        found: HostProbe,
        cached_input_devices: Vec<HostDevices>,
        cached_output_devices: Vec<HostDevices>,
    ) -> (engine: Result<AudioEngine, EngineError>)
        ensures
            match engine {
                Ok(engine) => {
                    &&& found.input is Some
                    &&& found.output is Some
                    &&& engine@ == (EngineModel {
                        host: host@,
                        input_device: found.input.unwrap()@,
                        output_device: found.output.unwrap()@,
                        input_stream: StreamState::Absent,
                        output_stream: StreamState::Absent,
                        block_size: DEFAULT_BLOCK_SIZE,
                    })
                    &&& engine.cached_input_devices == cached_input_devices
                    &&& engine.cached_output_devices == cached_output_devices
                },
                Err(error) => error == if found.input is None {
                    EngineError::NoInputDevice
                } else {
                    EngineError::NoOutputDevice
                } && (found.input is None || found.output is None),
            },
    {
        let HostProbe { input, output } = found;
        match input {
            None => Err(EngineError::NoInputDevice),
            Some(input_device) => match output {
                None => Err(EngineError::NoOutputDevice),
                Some(output_device) => Ok(
                    AudioEngine {
                        host,
                        input_device,
                        output_device,
                        input_stream: StreamState::Absent,
                        output_stream: StreamState::Absent,
                        block_size: DEFAULT_BLOCK_SIZE,
                        cached_input_devices,
                        cached_output_devices,
                    },
                ),
            },
        }
    }

    /// Plans the stream pair for the selection.
    ///
    /// No plan is made if, on a host that works on one device only, input
    /// and output differ; if the input has no channel or more than two; if
    /// the block is empty or larger than `MAX_BLOCK_SIZE`; or if a sample
    /// rate is zero. The first of these that holds is reported.
    pub fn plan(&self) -> (plan: Result<StreamPlan, EngineError>)
        ensures
            plan == spec_plan(self@),
    {
        let input = self.input_device.config;
        let output = self.output_device.config;
        if is_exclusive(self.host.as_str()) && !same_text(
            self.input_device.name.as_str(),
            self.output_device.name.as_str(),
        ) {
            Err(EngineError::DevicesDiffer)
        } else if input.channels == 0 || input.channels as usize > CHANNELS {
            Err(EngineError::UnsupportedChannels)
        } else if self.block_size == 0 || self.block_size > MAX_BLOCK_SIZE {
            Err(EngineError::BlockTooLarge)
        } else if input.sample_rate == 0 || output.sample_rate == 0 {
            Err(EngineError::UnsupportedSampleRate)
        } else {
            assert(2 * self.block_size * input.channels <= 2 * 2048 * 2) by (nonlinear_arith)
                requires
                    self.block_size <= 2048,
                    input.channels <= 2,
            ;
            Ok(
                StreamPlan {
                    input_config: input,
                    output_config: output,
                    block_size: self.block_size,
                    channels: input.channels as usize,
                    ring_capacity: 2 * self.block_size * (input.channels as usize),
                    resampler: ResamplerConfig {
                        output_rate: output.sample_rate,
                        input_rate: input.sample_rate,
                        max_relative_ratio: 2,
                        sinc_len: 256,
                        cutoff_percent: 95,
                        interpolation: Interpolation::Linear,
                        oversampling_factor: 256,
                        window: Window::BlackmanHarris2,
                        chunk_size: self.block_size,
                        channels: input.channels as usize,
                    },
                },
            )
        }
    }

    /// Starts over with the current selection: drops the streams that the
    /// engine holds, and plans the pair anew.
    pub fn run(&mut self) -> (plan: Result<StreamPlan, EngineError>)
        ensures
            final(self)@ == spec_stopped(old(self)@),
            plan == spec_plan(old(self)@),
            final(self).cached_input_devices == old(self).cached_input_devices,
            final(self).cached_output_devices == old(self).cached_output_devices,
    {
        self.input_stream = StreamState::Absent;
        self.output_stream = StreamState::Absent;
        self.plan()
    }

    /// Records how building and starting the planned streams went: a
    /// stream that was built and started plays, the other is absent.
    pub fn started(&mut self, input: bool, output: bool)
        ensures
            final(self)@ == spec_started(old(self)@, input, output),
            final(self).cached_input_devices == old(self).cached_input_devices,
            final(self).cached_output_devices == old(self).cached_output_devices,
    {
        self.input_stream = if input {
            StreamState::Playing
        } else {
            StreamState::Absent
        };
        self.output_stream = if output {
            StreamState::Playing
        } else {
            StreamState::Absent
        };
    }

    /// Whether the engine holds both streams, playing.
    pub fn is_streaming(&self) -> (yes: bool)
        ensures
            yes == spec_streaming(self@),
    {
        self.input_stream == StreamState::Playing && self.output_stream == StreamState::Playing
    }

    /// Sets the number of frames of a block, for the streams that are
    /// planned next. A size of zero or above `MAX_BLOCK_SIZE` is refused,
    /// and the engine keeps its block size.
    pub fn set_block_size(&mut self, block_size: usize) -> (done: Result<(), EngineError>)
        ensures
            done is Ok == (0 < block_size <= MAX_BLOCK_SIZE),
            done matches Err(error) ==> error == EngineError::BlockTooLarge && final(self)@ == old(
                self,
            )@,
            done is Ok ==> final(self)@ == (EngineModel { block_size, ..old(self)@ }),
            final(self).cached_input_devices == old(self).cached_input_devices,
            final(self).cached_output_devices == old(self).cached_output_devices,
    {
        if 0 < block_size && block_size <= MAX_BLOCK_SIZE {
            self.block_size = block_size;
            Ok(())
        } else {
            Err(EngineError::BlockTooLarge)
        }
    }

    /// Selects a host. `found` holds the default devices of the host of
    /// that name, or nothing if no such host could be had.
    ///
    /// Both streams are dropped first, in any case. Then the default
    /// devices of the host become the selection, and the stream pair is
    /// planned. On a host that works on one device only, the input device
    /// is the output device too.
    pub fn select_host(&mut self, host: &str, found: Option<HostProbe>) -> (plan: Result<
        StreamPlan,
        EngineError,
    >)
        ensures
            final(self)@ == spec_select_host(old(self)@, host@, spec_probe_view(found)),
            plan == spec_select_host_result(old(self)@, host@, spec_probe_view(found)),
            final(self).cached_input_devices == old(self).cached_input_devices,
            final(self).cached_output_devices == old(self).cached_output_devices,
    {
        self.input_stream = StreamState::Absent;
        self.output_stream = StreamState::Absent;
        let probe = match found {
            None => {
                return Err(EngineError::UnknownHost);
            },
            Some(probe) => probe,
        };
        let HostProbe { input, output } = probe;
        let input_device = match input {
            None => {
                return Err(EngineError::NoInputDevice);
            },
            Some(device) => device,
        };
        let output_device = if is_exclusive(host) {
            input_device.clone()
        } else {
            match output {
                None => {
                    return Err(EngineError::NoOutputDevice);
                },
                Some(device) => device,
            }
        };
        self.host = host.to_owned();
        self.input_device = input_device;
        self.output_device = output_device;
        self.plan()
    }

    /// Selects the input device of a name among the input devices of the
    /// host.
    ///
    /// Both streams are dropped first, in any case. On a host that works on
    /// one device only, the device becomes the output device too. Then the
    /// stream pair is planned.
    pub fn select_input_device(&mut self, device_name: String, devices: &Vec<Device>) -> (plan:
        Result<StreamPlan, EngineError>)
        ensures
            final(self)@ == spec_select_input_device(
                old(self)@,
                device_name@,
                spec_device_views(devices@),
            ),
            plan == if spec_find_device(spec_device_views(devices@), device_name@) is None {
                Err::<StreamPlan, EngineError>(EngineError::UnknownDevice)
            } else {
                spec_plan(final(self)@)
            },
            final(self).cached_input_devices == old(self).cached_input_devices,
            final(self).cached_output_devices == old(self).cached_output_devices,
    {
        self.input_stream = StreamState::Absent;
        self.output_stream = StreamState::Absent;
        let device = match find_device(devices, device_name.as_str()) {
            None => {
                return Err(EngineError::UnknownDevice);
            },
            Some(device) => device,
        };
        if is_exclusive(self.host.as_str()) {
            self.output_device = device.clone();
        }
        self.input_device = device;
        self.plan()
    }

    /// Selects the output device of a name among the output devices of the
    /// host; as `select_input_device`, with the directions exchanged.
    pub fn select_output_device(&mut self, device_name: String, devices: &Vec<Device>) -> (plan:
        Result<StreamPlan, EngineError>)
        ensures
            final(self)@ == spec_select_output_device(
                old(self)@,
                device_name@,
                spec_device_views(devices@),
            ),
            plan == if spec_find_device(spec_device_views(devices@), device_name@) is None {
                Err::<StreamPlan, EngineError>(EngineError::UnknownDevice)
            } else {
                spec_plan(final(self)@)
            },
            final(self).cached_input_devices == old(self).cached_input_devices,
            final(self).cached_output_devices == old(self).cached_output_devices,
    {
        self.input_stream = StreamState::Absent;
        self.output_stream = StreamState::Absent;
        let device = match find_device(devices, device_name.as_str()) {
            None => {
                return Err(EngineError::UnknownDevice);
            },
            Some(device) => device,
        };
        if is_exclusive(self.host.as_str()) {
            self.input_device = device.clone();
        }
        self.output_device = device;
        self.plan()
    }

    /// The names of the input devices to show for the host; `live` holds
    /// the names that the host reports now.
    pub fn enumerate_input_devices(&self, live: Vec<String>) -> (names: Vec<String>)
        ensures
            spec_names(names@) == spec_enumerate(
                self.host@,
                self.cached_input_devices@,
                spec_names(live@),
            ),
    {
        enumerate(self.host.as_str(), &self.cached_input_devices, live)
    }

    /// The names of the output devices to show for the host.
    pub fn enumerate_output_devices(&self, live: Vec<String>) -> (names: Vec<String>)
        ensures
            spec_names(names@) == spec_enumerate(
                self.host@,
                self.cached_output_devices@,
                spec_names(live@),
            ),
    {
        enumerate(self.host.as_str(), &self.cached_output_devices, live)
    }
}

fn enumerate(host: &str, cached: &Vec<HostDevices>, live: Vec<String>) -> (names: Vec<String>)
    ensures
        spec_names(names@) == spec_enumerate(host@, cached@, spec_names(live@)),
{
    if is_exclusive(host) {
        let hosts = host_names(cached);
        proof {
            lemma_find_name(spec_names(hosts@), host@);
        }
        match find_name(&hosts, host) {
            Some(at) => copy_names(&cached[at].devices),
            None => live,
        }
    } else {
        live
    }
}

/// The ordered registry of plugin instances that the capture side runs.
pub struct PluginRegistry {
    pub plugins: Vec<VSTHostContext>,
}

impl PluginRegistry {
    /// Whether a plugin can join the registry: it is constructed and can
    /// process, and it has a bus in both directions.
    pub open spec fn spec_accepts(plugin: VSTHostContext) -> bool {
        plugin.spec_can_process() && plugin.input_buses >= 1 && plugin.output_buses >= 1
    }

    pub fn new() -> (registry: PluginRegistry)
        ensures
            registry.plugins@ == Seq::<VSTHostContext>::empty(),
    {
        PluginRegistry { plugins: Vec::new() }
    }

    pub fn len(&self) -> (len: usize)
        ensures
            len == self.plugins@.len(),
    {
        self.plugins.len()
    }

    pub fn accepts(plugin: &VSTHostContext) -> (yes: bool)
        ensures
            yes == PluginRegistry::spec_accepts(*plugin),
    {
        plugin.can_process() && plugin.input_buses >= 1 && plugin.output_buses >= 1
    }

    /// Adds a plugin behind the others, with the status that its processor
    /// answered when it was told to start processing. A plugin that cannot
    /// join is handed back, and the registry stays as it is.
    pub fn add_plugin(&mut self, plugin: VSTHostContext, status: TResult) -> (rejected: Option<
        VSTHostContext,
    >)
        ensures
            rejected == if PluginRegistry::spec_accepts(plugin) {
                None::<VSTHostContext>
            } else {
                Some(plugin)
            },
            final(self).plugins@ == if PluginRegistry::spec_accepts(plugin) {
                old(self).plugins@.push(plugin.spec_set_processing(true, status))
            } else {
                old(self).plugins@
            },
    {
        if PluginRegistry::accepts(&plugin) {
            let mut plugin = plugin;
            plugin.set_processing(true, status);
            self.plugins.push(plugin);
            None
        } else {
            Some(plugin)
        }
    }

    /// Takes the last plugin out of the registry, to be torn down.
    pub fn take_plugin(&mut self) -> (plugin: Option<VSTHostContext>)
        ensures
            plugin == if old(self).plugins@.len() > 0 {
                Some(old(self).plugins@.last())
            } else {
                None
            },
            final(self).plugins@ == if old(self).plugins@.len() > 0 {
                old(self).plugins@.drop_last()
            } else {
                old(self).plugins@
            },
    {
        self.plugins.pop()
    }

    /// The address of the audio processor of the plugin at a place of the
    /// registry, if there is a plugin at that place and it is processing.
    pub fn processor(&self, index: usize) -> (address: Option<usize>)
        ensures
            address == if index < self.plugins@.len() && self.plugins@[index as int].processing {
                self.plugins@[index as int].processor
            } else {
                None
            },
    {
        if index < self.plugins.len() && self.plugins[index].processing {
            self.plugins[index].processor
        } else {
            None
        }
    }

    /// The addresses of the audio processors to call for a block, in the
    /// order of the registry. A plugin that is not processing is left out.
    pub fn processors(&self) -> (addresses: Vec<usize>)
        ensures
            addresses@ == spec_processors(self.plugins@),
    {
        let mut addresses: Vec<usize> = Vec::new();
        let mut i: usize = 0;
        proof {
            assert(self.plugins@.take(0) =~= Seq::<VSTHostContext>::empty());
        }
        while i < self.plugins.len()
            invariant
                i <= self.plugins@.len(),
                addresses@ == spec_processors(self.plugins@.take(i as int)),
            decreases self.plugins@.len() - i,
        {
            let plugin = &self.plugins[i];
            proof {
                let next = self.plugins@.take(i + 1);
                assert(next.drop_last() =~= self.plugins@.take(i as int));
                assert(next.last() == self.plugins@[i as int]);
            }
            if plugin.processing {
                match plugin.processor {
                    Some(address) => {
                        addresses.push(address);
                    },
                    None => {},
                }
            }
            i += 1;
        }
        proof {
            assert(self.plugins@.take(self.plugins@.len() as int) =~= self.plugins@);
        }
        addresses
    }
}

/// The processors of the plugins that are processing, in order.
pub open spec fn spec_processors(plugins: Seq<VSTHostContext>) -> Seq<usize>
    decreases plugins.len(),
{
    if plugins.len() == 0 {
        Seq::empty()
    } else {
        let last = plugins.last();
        let before = spec_processors(plugins.drop_last());
        if last.processing && last.processor is Some {
            before.push(last.processor.unwrap())
        } else {
            before
        }
    }
}

/// After a selection whose plan could be made, and whose streams were built
/// and started, the engine holds one input stream and one output stream,
/// both playing.
pub proof fn lemma_selection_ends_streaming(
    engine: EngineModel,
    host: Seq<char>,
    found: Option<HostProbeModel>,
    name: Seq<char>,
    devices: Seq<DeviceModel>,
)
    ensures
        spec_streaming(spec_started(spec_select_host(engine, host, found), true, true)),
        spec_streaming(spec_started(spec_select_input_device(engine, name, devices), true, true)),
        spec_streaming(spec_started(spec_select_output_device(engine, name, devices), true, true)),
        spec_streaming(spec_started(spec_stopped(engine), true, true)),
        !spec_streaming(spec_select_host(engine, host, found)),
        !spec_streaming(spec_select_input_device(engine, name, devices)),
        !spec_streaming(spec_select_output_device(engine, name, devices)),
{
}

/// Selecting a host twice is selecting it once, with or without the
/// streams built in between.
pub proof fn lemma_select_host_idempotent(
    engine: EngineModel,
    host: Seq<char>,
    found: Option<HostProbeModel>,
    input: bool,
    output: bool,
)
    ensures
        spec_select_host(spec_select_host(engine, host, found), host, found) == spec_select_host(
            engine,
            host,
            found,
        ),
        spec_select_host(
            spec_started(spec_select_host(engine, host, found), input, output),
            host,
            found,
        ) == spec_select_host(engine, host, found),
        spec_select_host_result(spec_select_host(engine, host, found), host, found)
            == spec_select_host_result(engine, host, found),
{
}

/// On a host that works on one device only, every selection that succeeds
/// leaves input and output on the same device.
pub proof fn lemma_exclusive_host_mirrors(
    engine: EngineModel,
    host: Seq<char>,
    found: Option<HostProbeModel>,
    name: Seq<char>,
    devices: Seq<DeviceModel>,
)
    ensures
        spec_is_exclusive(host) && spec_select_host_result(engine, host, found) is Ok ==> ({
            let next = spec_select_host(engine, host, found);
            next.input_device == next.output_device && next.host == host
        }),
        spec_is_exclusive(engine.host) && spec_find_device(devices, name) is Some ==> ({
            let next = spec_select_input_device(engine, name, devices);
            next.input_device == next.output_device
        }),
        spec_is_exclusive(engine.host) && spec_find_device(devices, name) is Some ==> ({
            let next = spec_select_output_device(engine, name, devices);
            next.input_device == next.output_device
        }),
{
}

/// A block larger than a scratch array holds is rejected when the streams
/// are planned; every block size up to that is planned for, with a ring of
/// twice the block for every channel.
pub proof fn lemma_block_size_bound(engine: EngineModel)
    ensures
        engine.block_size > MAX_BLOCK_SIZE ==> spec_plan(engine) is Err,
        spec_plan(engine) matches Ok(plan) ==> {
            &&& 0 < plan.block_size <= MAX_BLOCK_SIZE
            &&& 0 < plan.channels <= CHANNELS
            &&& plan.ring_capacity == crate::ring::spec_ring_capacity_for(
                plan.block_size as nat,
                plan.channels as nat,
            )
            &&& plan.resampler.chunk_size == plan.block_size
            &&& plan.resampler.max_relative_ratio == 2
        },
{
    if spec_plan(engine) is Ok {
        let channels = engine.input_device.config.channels;
        assert(2 * engine.block_size * channels <= 2 * 2048 * 2) by (nonlinear_arith)
            requires
                engine.block_size <= 2048,
                channels <= 2,
        ;
    }
}

/// A plugin that joins and is taken out again leaves the registry as it
/// was.
pub proof fn lemma_add_then_take_restores(plugins: Seq<VSTHostContext>, plugin: VSTHostContext)
    ensures
        plugins.push(plugin).drop_last() == plugins,
        plugins.push(plugin).last() == plugin,
        plugins.push(plugin).drop_last().len() == plugins.len(),
{
    assert(plugins.push(plugin).drop_last() =~= plugins);
}

} // verus!
