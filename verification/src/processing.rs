//! The records and enumerations that describe audio processing to a plugin.

use vstd::prelude::*;

verus! {

/// Largest number of frames that one audio block may hold.
pub const MAX_BLOCK_SIZE: usize = 2048;

/// Number of channels of the one input bus and the one output bus.
pub const CHANNELS: usize = 2;

/// Block size that a plugin is set up with before the engine knows better.
pub const SETUP_MAX_SAMPLES_PER_BLOCK: i32 = 1920;

/// Sample rate, in hertz, that a plugin is set up with.
pub const SETUP_SAMPLE_RATE: u32 = 48000;

#[derive(Debug, Clone, Copy, PartialEq, Eq, Structural, Default)]
pub enum ProcessMode {
    #[default]
    Realtime,
    Prefetch,
    Offline,
}

#[derive(Debug, Clone, Copy, PartialEq, Eq, Structural, Default)]
pub enum SymbolicSampleSize {
    #[default]
    Sample32,
    Sample64,
}

#[derive(Debug, Clone, Copy, PartialEq, Eq, Structural, Default)]
pub enum MediaType {
    #[default]
    Audio,
    Event,
    NumMediaTypes,
}

#[derive(Debug, Clone, Copy, PartialEq, Eq, Structural, Default)]
pub enum BusDirection {
    #[default]
    Input,
    Output,
}

#[derive(Debug, Clone, Copy, PartialEq, Eq, Structural, Default)]
pub enum BusType {
    #[default]
    Main,
    Aux,
}

#[derive(Debug, Clone, Copy, PartialEq, Eq, Structural, Default)]
pub enum IoMode {
    #[default]
    Simple,
    Advanced,
    OffineProcessing,
}

#[derive(Debug, Clone, Copy, PartialEq, Eq, Structural, Default)]
pub enum BusFlags {
    #[default]
    DefaultActive,
    IsControlVoltlage,
}

impl ProcessMode {
    pub open spec fn spec_code(self) -> i32 {
        match self {
            ProcessMode::Realtime => 0i32,
            ProcessMode::Prefetch => 1i32,
            ProcessMode::Offline => 2i32,
        }
    }

    /// The value that stands for the mode in a record handed to a plugin.
    pub fn code(self) -> (code: i32)
        ensures
            code == self.spec_code(),
    {
        match self {
            ProcessMode::Realtime => 0,
            ProcessMode::Prefetch => 1,
            ProcessMode::Offline => 2,
        }
    }
}

impl SymbolicSampleSize {
    pub open spec fn spec_code(self) -> i32 {
        match self {
            SymbolicSampleSize::Sample32 => 0i32,
            SymbolicSampleSize::Sample64 => 1i32,
        }
    }

    pub fn code(self) -> (code: i32)
        ensures
            code == self.spec_code(),
    {
        match self {
            SymbolicSampleSize::Sample32 => 0,
            SymbolicSampleSize::Sample64 => 1,
        }
    }
}

impl MediaType {
    pub open spec fn spec_code(self) -> i32 {
        match self {
            MediaType::Audio => 0i32,
            MediaType::Event => 1i32,
            MediaType::NumMediaTypes => 2i32,
        }
    }

    pub fn code(self) -> (code: i32)
        ensures
            code == self.spec_code(),
    {
        match self {
            MediaType::Audio => 0,
            MediaType::Event => 1,
            MediaType::NumMediaTypes => 2,
        }
    }
}

impl BusDirection {
    pub open spec fn spec_code(self) -> i32 {
        match self {
            BusDirection::Input => 0i32,
            BusDirection::Output => 1i32,
        }
    }

    pub fn code(self) -> (code: i32)
        ensures
            code == self.spec_code(),
    {
        match self {
            BusDirection::Input => 0,
            BusDirection::Output => 1,
        }
    }
}

impl BusType {
    pub open spec fn spec_code(self) -> i32 {
        match self {
            BusType::Main => 0i32,
            BusType::Aux => 1i32,
        }
    }

    pub fn code(self) -> (code: i32)
        ensures
            code == self.spec_code(),
    {
        match self {
            BusType::Main => 0,
            BusType::Aux => 1,
        }
    }
}

impl IoMode {
    pub open spec fn spec_code(self) -> i32 {
        match self {
            IoMode::Simple => 0i32,
            IoMode::Advanced => 1i32,
            IoMode::OffineProcessing => 2i32,
        }
    }

    pub fn code(self) -> (code: i32)
        ensures
            code == self.spec_code(),
    {
        match self {
            IoMode::Simple => 0,
            IoMode::Advanced => 1,
            IoMode::OffineProcessing => 2,
        }
    }
}

impl BusFlags {
    pub open spec fn spec_bits(self) -> u32 {
        match self {
            BusFlags::DefaultActive => 1u32,
            BusFlags::IsControlVoltlage => 2u32,
        }
    }

    /// The flag as a bit mask.
    pub fn bits(self) -> (bits: u32)
        ensures
            bits == self.spec_bits(),
    {
        match self {
            BusFlags::DefaultActive => 1,
            BusFlags::IsControlVoltlage => 2,
        }
    }
}

/// What a plugin is told before processing starts. The sample rate is held
/// in whole hertz.
#[derive(Debug, Clone, Copy, PartialEq, Eq, Structural)]
pub struct ProcessSetup {
    pub process_mode: ProcessMode,
    pub symbolic_sample_size: SymbolicSampleSize,
    pub max_samples_per_block: i32,
    pub sample_rate: u32,
}

impl ProcessSetup {
    /// The setup that a plugin is initialized with: realtime, 32-bit samples,
    /// at most 1920 samples per block, 48000 Hz.
    pub open spec fn spec_initial() -> ProcessSetup {
        ProcessSetup {
            process_mode: ProcessMode::Realtime,
            symbolic_sample_size: SymbolicSampleSize::Sample32,
            max_samples_per_block: 1920,
            sample_rate: 48000,
        }
    }

    pub fn initial() -> (setup: ProcessSetup)
        ensures
            setup == ProcessSetup::spec_initial(),
    {
        ProcessSetup {
            process_mode: ProcessMode::Realtime,
            symbolic_sample_size: SymbolicSampleSize::Sample32,
            max_samples_per_block: SETUP_MAX_SAMPLES_PER_BLOCK,
            sample_rate: SETUP_SAMPLE_RATE,
        }
    }
}

/// Description of one bus of a plugin. The name is UTF-16, NUL-terminated.
#[derive(Debug, Clone, Copy)]
pub struct BusInfo {
    pub media_type: MediaType,
    pub direction: BusDirection,
    pub channel_count: i32,
    pub name: [u16; 128],
    pub bus_type: BusType,
    pub flags: BusFlags,
}

impl Default for BusInfo {
    fn default() -> (info: BusInfo)
        ensures
            info.media_type == MediaType::Audio,
            info.direction == BusDirection::Input,
            info.channel_count == 0,
            info.name@ == Seq::new(128, |i: int| 0u16),
            info.bus_type == BusType::Main,
            info.flags == BusFlags::DefaultActive,
    {
        let info = BusInfo {
            media_type: MediaType::Audio,
            direction: BusDirection::Input,
            channel_count: 0,
            name: [0u16; 128],
            bus_type: BusType::Main,
            flags: BusFlags::DefaultActive,
        };
        assert(info.name@ =~= Seq::new(128, |i: int| 0u16));
        info
    }
}

/// Where a channel of a bus is routed. A channel of -1 stands for all
/// channels.
#[derive(Debug, Clone, Copy, PartialEq, Eq, Structural, Default)]
pub struct RoutingInfo {
    pub media_type: MediaType,
    pub bus_index: i32,
    pub channel: i32,
}

/// One bus of a process-data record. The channel-pointer array is held as
/// its address.
#[derive(Debug, Clone, Copy, PartialEq, Eq, Structural)]
pub struct AudioBusBuffers {
    pub num_channels: i32,
    pub silence_flags: u64,
    pub channel_buffers_32: usize,
}

/// The record handed to a plugin with each block. Pointers are held as
/// addresses; zero stands for a null pointer.
#[derive(Debug, Clone, Copy, PartialEq, Eq, Structural)]
pub struct ProcessData {
    pub process_mode: ProcessMode,
    pub symbolic_sample_size: SymbolicSampleSize,
    pub num_samples: i32,
    pub num_inputs: i32,
    pub num_outputs: i32,
    pub inputs: usize,
    pub outputs: usize,
    pub input_parameter_changes: usize,
    pub output_parameter_changes: usize,
    pub input_events: usize,
    pub output_events: usize,
    pub process_context: usize,
}

/// The set of parameter changes that the host hands to a plugin: always
/// empty.
#[derive(Debug, Clone, Copy)]
pub struct HostParameterChanges {
    vtable: [crate::interface::VtableSlot; 6],
}

impl HostParameterChanges {
    pub closed spec fn spec_vtable(self) -> Seq<crate::interface::VtableSlot> {
        self.vtable@
    }

    pub fn new() -> (changes: HostParameterChanges)
        ensures
            changes.spec_vtable() == crate::interface::spec_vtable_layout(
                crate::interface::InterfaceKind::IParameterChanges,
            ),
    {
        let changes = HostParameterChanges {
            vtable: [
                crate::interface::unknown_slot(0),
                crate::interface::unknown_slot(1),
                crate::interface::unknown_slot(2),
                crate::interface::own_slot(crate::interface::InterfaceKind::IParameterChanges, 0),
                crate::interface::own_slot(crate::interface::InterfaceKind::IParameterChanges, 1),
                crate::interface::own_slot(crate::interface::InterfaceKind::IParameterChanges, 2),
            ],
        };
        proof {
            crate::interface::lemma_layout_of_unknown_child(
                crate::interface::InterfaceKind::IParameterChanges,
            );
            assert(changes.vtable@ =~= crate::interface::spec_vtable_layout(
                crate::interface::InterfaceKind::IParameterChanges,
            ));
        }
        changes
    }

    /// The function table of the object, slot by slot.
    pub fn vtable(&self) -> (slots: &[crate::interface::VtableSlot; 6])
        ensures
            slots@ == self.spec_vtable(),
    {
        &self.vtable
    }

    /// The number of changed parameters: none.
    pub fn get_parameter_count(&self) -> (count: i32)
        ensures
            count == 0,
    {
        0
    }

    /// The queue of changes at an index: there is none, so a null address.
    pub fn get_parameter_data(&self, index: i32) -> (address: usize)
        ensures
            address == 0,
    {
        0
    }

    /// Adds a queue for a parameter: refused with a null address, and no
    /// index is handed out.
    pub fn add_parameter_data(&self, id: u32) -> (result: (usize, Option<i32>))
        ensures
            result == (0usize, None::<i32>),
    {
        (0, None)
    }
}

} // verus!
