//! The plugin lifecycle controller: the order-sensitive construction of one
//! plugin instance, and its teardown.
//!
//! The controller decides; its caller performs. `VSTHostContext::request`
//! names the call to make on the plugin, `VSTHostContext::step` takes what
//! the call returned and moves on.

use crate::interface::{InterfaceKind, PClassInfo};
use crate::module::ModuleError;
use crate::processing::{BusDirection, IoMode, ProcessSetup};
use crate::status::TResult;
use crate::uid::{uid_eq, FUID};
use vstd::prelude::*;

verus! {

/// The interface pointers that a plugin instance owns.
#[derive(Debug, Clone, Copy, PartialEq, Eq, Structural)]
pub enum Role {
    Factory,
    Component,
    Controller,
    ComponentConnection,
    ControllerConnection,
    Processor,
    View,
}

/// Why a plugin could not be constructed.
#[derive(Debug, Clone, Copy, PartialEq, Eq, Structural)]
pub enum LoadError {
    /// The library could not be loaded.
    Module(ModuleError),
    /// The plugin answered a call with this status.
    Status(TResult),
    /// The factory offers no class of the category "Audio Module Class".
    NoAudioModuleClass,
    /// The caller handed in an answer of the wrong shape for the call.
    Protocol,
}

/// How the edit controller was obtained.
#[derive(Debug, Clone, Copy, PartialEq, Eq, Structural)]
pub enum ControllerPath {
    /// The component named a class, and the factory made an instance of it.
    Factory,
    /// The component itself was queried for the controller interface.
    Query,
}

/// The states of a plugin instance.
#[derive(Debug, Clone, Copy, PartialEq, Eq, Structural)]
pub enum PluginState {
    Uninitialized,
    Loaded,
    Configured,
    Active,
    Processing,
    Detached,
}

/// Where the controller stands: the call whose answer it waits for, or the
/// resting point it has reached.
#[derive(Debug, Clone, Copy, PartialEq, Eq, Structural)]
pub enum Stage {
    LoadModule,
    GetFactory,
    CountClasses,
    GetClassInfo,
    CreateComponent,
    SetIoMode,
    GetControllerClassId,
    CreateController,
    QueryController,
    InitializeComponent,
    QueryComponentConnection,
    QueryControllerConnection,
    ConnectComponent,
    ConnectController,
    QueryProcessor,
    SetupProcessing,
    CountInputBuses,
    GetInputBusInfo,
    CountOutputBuses,
    GetOutputBusInfo,
    ActivateInputBus,
    ActivateOutputBus,
    SetActive,
    InitializeController,
    SetComponentHandler,
    CreateView,
    SetFrame,
    /// Construction is over; the instance waits for the engine and the
    /// window.
    Ready,
    /// Teardown is under way.
    Releasing,
    /// Everything is released.
    Finished,
}

/// A call that the caller is to make.
#[derive(Debug, Clone, Copy, PartialEq, Eq, Structural)]
pub enum Request {
    /// Load the library and call its `InitDll`, if it has one.
    LoadModule,
    /// Call `GetPluginFactory`.
    GetFactory,
    CountClasses,
    GetClassInfo(i32),
    /// Have the factory make an instance of the class that
    /// `VSTHostContext::class_id` holds, as `interface`.
    CreateInstance { role: Role, interface: InterfaceKind },
    SetIoMode(IoMode),
    GetControllerClassId,
    /// Query the pointer `from` for `interface`.
    QueryInterface { from: Role, role: Role, interface: InterfaceKind },
    /// Initialize with the host application object as context.
    Initialize(Role),
    /// Connect the connection point `from` with its peer `to`.
    Connect { from: Role, to: Role },
    SetupProcessing(ProcessSetup),
    GetBusCount(BusDirection),
    GetBusInfo(BusDirection, i32),
    /// Activate the audio bus of this direction and index.
    ActivateBus(BusDirection, i32),
    SetActive(bool),
    SetComponentHandler,
    /// Create the view named "editor".
    CreateView,
    /// Hand the view the host's plug frame.
    SetFrame,
    /// Tell the view that it was removed from its window.
    ViewRemoved,
    /// Release the one reference that the instance holds on this pointer.
    Release(Role),
    /// Give the module back to the loader.
    DropModule,
    /// Nothing to call: the instance is constructed.
    Ready,
    /// Nothing to call: the instance is gone. Holds the error that aborted
    /// construction, if one did.
    Finished(Option<LoadError>),
}

/// What a call returned.
#[derive(Debug, Clone, Copy)]
pub enum Response {
    /// The call has no result, or its result does not matter.
    Done,
    Module(Result<(), ModuleError>),
    Status(TResult),
    /// A status and the pointer that came with it, as an address.
    Pointer { status: TResult, address: usize },
    Count(i32),
    ClassInfo { status: TResult, info: PClassInfo },
    ClassId { status: TResult, cid: FUID },
}

/// One plugin instance: the pointers it owns, as addresses, and how far its
/// construction has come.
#[derive(Debug, Clone, Copy)]
pub struct VSTHostContext {
    pub stage: Stage,
    /// Whether the instance holds its module.
    pub module: bool,
    pub factory: Option<usize>,
    pub component: Option<usize>,
    pub processor: Option<usize>,
    pub editor: Option<usize>,
    pub view: Option<usize>,
    /// Whether the host application object exists.
    pub host: bool,
    /// Whether the component handler object exists.
    pub handler: bool,
    pub component_connection: Option<usize>,
    pub controller_connection: Option<usize>,
    pub class_count: i32,
    pub class_index: i32,
    /// The class that the factory is asked for next.
    pub class_id: Option<FUID>,
    pub controller_path: Option<ControllerPath>,
    pub bus_index: i32,
    pub input_buses: i32,
    pub output_buses: i32,
    /// Whether both connection points are connected with each other.
    pub connected: bool,
    /// Whether activation was asked of the first bus of both directions.
    pub buses_activated: bool,
    pub active: bool,
    pub controller_initialized: bool,
    pub processing: bool,
    pub attached: bool,
    /// Whether the view was removed from its window.
    pub detached: bool,
    pub failure: Option<LoadError>,
}

/// A pointer was obtained if the status is ok and the pointer is not null.
pub open spec fn spec_obtained(status: TResult, address: usize) -> bool {
    status == TResult::ResultOk && address != 0
}

/// What a call that hands out a pointer has come to: the address of the
/// pointer if one was obtained, else the status of the call as the error.
pub fn pointer_result(status: TResult, address: usize) -> (result: Result<usize, TResult>)
    ensures
        result == if spec_obtained(status, address) {
            Ok::<usize, TResult>(address)
        } else {
            Err::<usize, TResult>(status)
        },
{
    if status.is_ok() && address != 0 {
        Ok(address)
    } else {
        Err(status)
    }
}

/// What a call that returns a status has come to: every status but ok is
/// an error.
pub fn status_result(status: TResult) -> (result: Result<(), TResult>)
    ensures
        result == if status == TResult::ResultOk {
            Ok::<(), TResult>(())
        } else {
            Err::<(), TResult>(status)
        },
{
    if status.is_ok() {
        Ok(())
    } else {
        Err(status)
    }
}

impl Role {
    /// The interface as which the pointer of a role is held.
    pub open spec fn spec_interface(self) -> InterfaceKind {
        match self {
            Role::Factory => InterfaceKind::IPluginFactory,
            Role::Component => InterfaceKind::IComponent,
            Role::Controller => InterfaceKind::IEditController,
            Role::ComponentConnection => InterfaceKind::IConnectionPoint,
            Role::ControllerConnection => InterfaceKind::IConnectionPoint,
            Role::Processor => InterfaceKind::IAudioProcessor,
            Role::View => InterfaceKind::IPlugView,
        }
    }

    pub fn interface(self) -> (kind: InterfaceKind)
        ensures
            kind == self.spec_interface(),
    {
        match self {
            Role::Factory => InterfaceKind::IPluginFactory,
            Role::Component => InterfaceKind::IComponent,
            Role::Controller => InterfaceKind::IEditController,
            Role::ComponentConnection => InterfaceKind::IConnectionPoint,
            Role::ControllerConnection => InterfaceKind::IConnectionPoint,
            Role::Processor => InterfaceKind::IAudioProcessor,
            Role::View => InterfaceKind::IPlugView,
        }
    }
}

impl Stage {
    /// The place of a stage in the order of construction.
    pub open spec fn spec_ordinal(self) -> nat {
        match self {
            Stage::LoadModule => 0,
            Stage::GetFactory => 1,
            Stage::CountClasses => 2,
            Stage::GetClassInfo => 3,
            Stage::CreateComponent => 4,
            Stage::SetIoMode => 5,
            Stage::GetControllerClassId => 6,
            Stage::CreateController => 7,
            Stage::QueryController => 7,
            Stage::InitializeComponent => 8,
            Stage::QueryComponentConnection => 9,
            Stage::QueryControllerConnection => 10,
            Stage::ConnectComponent => 11,
            Stage::ConnectController => 12,
            Stage::QueryProcessor => 13,
            Stage::SetupProcessing => 14,
            Stage::CountInputBuses => 15,
            Stage::GetInputBusInfo => 16,
            Stage::CountOutputBuses => 17,
            Stage::GetOutputBusInfo => 18,
            Stage::ActivateInputBus => 19,
            Stage::ActivateOutputBus => 20,
            Stage::SetActive => 21,
            Stage::InitializeController => 22,
            Stage::SetComponentHandler => 23,
            Stage::CreateView => 24,
            Stage::SetFrame => 25,
            Stage::Ready => 26,
            Stage::Releasing => 27,
            Stage::Finished => 28,
        }
    }
}

impl VSTHostContext {
    /// A context that has nothing yet and waits for its module.
    pub open spec fn spec_new() -> VSTHostContext {
        VSTHostContext {
            stage: Stage::LoadModule,
            module: false,
            factory: None,
            component: None,
            processor: None,
            editor: None,
            view: None,
            host: false,
            handler: false,
            component_connection: None,
            controller_connection: None,
            class_count: 0,
            class_index: 0,
            class_id: None,
            controller_path: None,
            bus_index: 0,
            input_buses: 0,
            output_buses: 0,
            connected: false,
            buses_activated: false,
            active: false,
            controller_initialized: false,
            processing: false,
            attached: false,
            detached: false,
            failure: None,
        }
    }

    /// Whether the instance holds the pointer of a role.
    pub open spec fn spec_holds(self, role: Role) -> bool {
        match role {
            Role::Factory => self.factory is Some,
            Role::Component => self.component is Some,
            Role::Controller => self.editor is Some,
            Role::ComponentConnection => self.component_connection is Some,
            Role::ControllerConnection => self.controller_connection is Some,
            Role::Processor => self.processor is Some,
            Role::View => self.view is Some,
        }
    }

    /// Whether the instance holds anything that teardown has to give back.
    pub open spec fn spec_holds_any(self) -> bool {
        ||| self.module
        ||| self.factory is Some
        ||| self.component is Some
        ||| self.processor is Some
        ||| self.editor is Some
        ||| self.view is Some
        ||| self.component_connection is Some
        ||| self.controller_connection is Some
    }

    /// The next call of teardown: the connection points first, the
    /// controller's before the component's; then the view, told of its
    /// removal first if it is attached; then controller, processor,
    /// component and factory; the module last.
    pub open spec fn spec_next_release(self) -> Request {
        if self.controller_connection is Some {
            Request::Release(Role::ControllerConnection)
        } else if self.component_connection is Some {
            Request::Release(Role::ComponentConnection)
        } else if self.view is Some && self.attached {
            Request::ViewRemoved
        } else if self.view is Some {
            Request::Release(Role::View)
        } else if self.editor is Some {
            Request::Release(Role::Controller)
        } else if self.processor is Some {
            Request::Release(Role::Processor)
        } else if self.component is Some {
            Request::Release(Role::Component)
        } else if self.factory is Some {
            Request::Release(Role::Factory)
        } else if self.module {
            Request::DropModule
        } else {
            Request::Finished(self.failure)
        }
    }

    /// The context after the next call of teardown was made.
    pub open spec fn spec_released(self) -> VSTHostContext {
        let next = if self.controller_connection is Some {
            VSTHostContext { controller_connection: None, connected: false, ..self }
        } else if self.component_connection is Some {
            VSTHostContext { component_connection: None, connected: false, ..self }
        } else if self.view is Some && self.attached {
            VSTHostContext { attached: false, detached: true, ..self }
        } else if self.view is Some {
            VSTHostContext { view: None, ..self }
        } else if self.editor is Some {
            VSTHostContext { editor: None, controller_initialized: false, ..self }
        } else if self.processor is Some {
            VSTHostContext { processor: None, processing: false, ..self }
        } else if self.component is Some {
            VSTHostContext { component: None, active: false, ..self }
        } else if self.factory is Some {
            VSTHostContext { factory: None, ..self }
        } else {
            VSTHostContext { module: false, host: false, handler: false, ..self }
        };
        VSTHostContext {
            stage: if next.spec_holds_any() {
                Stage::Releasing
            } else {
                Stage::Finished
            },
            ..next
        }
    }

    /// The context as teardown starts.
    pub open spec fn spec_teardown(self) -> VSTHostContext {
        VSTHostContext {
            stage: if self.spec_holds_any() {
                Stage::Releasing
            } else {
                Stage::Finished
            },
            host: self.host && self.spec_holds_any(),
            handler: self.handler && self.spec_holds_any(),
            ..self
        }
    }

    /// The context as construction is aborted with an error. The first
    /// error stays.
    pub open spec fn spec_fail(self, error: LoadError) -> VSTHostContext {
        VSTHostContext {
            failure: if self.failure is Some {
                self.failure
            } else {
                Some(error)
            },
            ..self
        }.spec_teardown()
    }

    /// The call that the controller waits for.
    pub open spec fn spec_request(self) -> Request {
        match self.stage {
            Stage::LoadModule => Request::LoadModule,
            Stage::GetFactory => Request::GetFactory,
            Stage::CountClasses => Request::CountClasses,
            Stage::GetClassInfo => Request::GetClassInfo(self.class_index),
            Stage::CreateComponent => Request::CreateInstance {
                role: Role::Component,
                interface: InterfaceKind::IComponent,
            },
            Stage::SetIoMode => Request::SetIoMode(IoMode::Advanced),
            Stage::GetControllerClassId => Request::GetControllerClassId,
            Stage::CreateController => Request::CreateInstance {
                role: Role::Controller,
                interface: InterfaceKind::IEditController,
            },
            Stage::QueryController => Request::QueryInterface {
                from: Role::Component,
                role: Role::Controller,
                interface: InterfaceKind::IEditController,
            },
            Stage::InitializeComponent => Request::Initialize(Role::Component),
            Stage::QueryComponentConnection => Request::QueryInterface {
                from: Role::Component,
                role: Role::ComponentConnection,
                interface: InterfaceKind::IConnectionPoint,
            },
            Stage::QueryControllerConnection => Request::QueryInterface {
                from: Role::Controller,
                role: Role::ControllerConnection,
                interface: InterfaceKind::IConnectionPoint,
            },
            Stage::ConnectComponent => Request::Connect {
                from: Role::ComponentConnection,
                to: Role::ControllerConnection,
            },
            Stage::ConnectController => Request::Connect {
                from: Role::ControllerConnection,
                to: Role::ComponentConnection,
            },
            Stage::QueryProcessor => Request::QueryInterface {
                from: Role::Component,
                role: Role::Processor,
                interface: InterfaceKind::IAudioProcessor,
            },
            Stage::SetupProcessing => Request::SetupProcessing(ProcessSetup::spec_initial()),
            Stage::CountInputBuses => Request::GetBusCount(BusDirection::Input),
            Stage::GetInputBusInfo => Request::GetBusInfo(BusDirection::Input, self.bus_index),
            Stage::CountOutputBuses => Request::GetBusCount(BusDirection::Output),
            Stage::GetOutputBusInfo => Request::GetBusInfo(BusDirection::Output, self.bus_index),
            Stage::ActivateInputBus => Request::ActivateBus(BusDirection::Input, 0),
            Stage::ActivateOutputBus => Request::ActivateBus(BusDirection::Output, 0),
            Stage::SetActive => Request::SetActive(true),
            Stage::InitializeController => Request::Initialize(Role::Controller),
            Stage::SetComponentHandler => Request::SetComponentHandler,
            Stage::CreateView => Request::CreateView,
            Stage::SetFrame => Request::SetFrame,
            Stage::Ready => Request::Ready,
            Stage::Releasing => self.spec_next_release(),
            Stage::Finished => Request::Finished(self.failure),
        }
    }

    /// Whether the component has named a class for its controller: it
    /// answered with ok, and the class is another than its own. Else the
    /// component is its own controller, and is queried for it.
    pub open spec fn spec_names_controller(self, status: TResult, cid: FUID) -> bool {
        status == TResult::ResultOk && !(self.class_id matches Some(own) && own@ == cid@)
    }

    /// The context after a call that must succeed returned `status`: on to
    /// `next` if the status is ok, else construction is aborted with it.
    pub open spec fn spec_expect_ok(self, status: TResult, next: Stage) -> VSTHostContext {
        if status == TResult::ResultOk {
            VSTHostContext { stage: next, ..self }
        } else {
            self.spec_fail(LoadError::Status(status))
        }
    }

    /// The context after the outstanding call returned `response`.
    pub open spec fn spec_step(self, response: Response) -> VSTHostContext {
        match self.stage {
            Stage::LoadModule => match response {
                Response::Module(Ok(())) => VSTHostContext {
                    stage: Stage::GetFactory,
                    module: true,
                    host: true,
                    handler: true,
                    ..self
                },
                Response::Module(Err(error)) => self.spec_fail(LoadError::Module(error)),
                _ => self.spec_fail(LoadError::Protocol),
            },
            Stage::GetFactory => match response {
                Response::Pointer { status, address } => if address != 0 {
                    VSTHostContext { stage: Stage::CountClasses, factory: Some(address), ..self }
                } else {
                    self.spec_fail(LoadError::Module(ModuleError::NullFactory))
                },
                Response::Module(Err(error)) => self.spec_fail(LoadError::Module(error)),
                _ => self.spec_fail(LoadError::Protocol),
            },
            Stage::CountClasses => match response {
                Response::Count(count) => if count > 0 {
                    VSTHostContext {
                        stage: Stage::GetClassInfo,
                        class_count: count,
                        class_index: 0,
                        ..self
                    }
                } else {
                    self.spec_fail(LoadError::NoAudioModuleClass)
                },
                _ => self.spec_fail(LoadError::Protocol),
            },
            Stage::GetClassInfo => match response {
                Response::ClassInfo { status, info } => if status != TResult::ResultOk {
                    self.spec_fail(LoadError::Status(status))
                } else if info.spec_is_audio_module() {
                    VSTHostContext {
                        stage: Stage::CreateComponent,
                        class_id: Some(info.cid),
                        ..self
                    }
                } else if self.class_index < self.class_count - 1 {
                    VSTHostContext { class_index: (self.class_index + 1) as i32, ..self }
                } else {
                    self.spec_fail(LoadError::NoAudioModuleClass)
                },
                _ => self.spec_fail(LoadError::Protocol),
            },
            Stage::CreateComponent => match response {
                Response::Pointer { status, address } => if spec_obtained(status, address) {
                    VSTHostContext { stage: Stage::SetIoMode, component: Some(address), ..self }
                } else {
                    self.spec_fail(LoadError::Status(status))
                },
                _ => self.spec_fail(LoadError::Protocol),
            },
            Stage::SetIoMode => match response {
                Response::Status(status) => self.spec_expect_ok(status, Stage::GetControllerClassId),
                _ => self.spec_fail(LoadError::Protocol),
            },
            Stage::GetControllerClassId => match response {
                Response::ClassId { status, cid } => if self.spec_names_controller(status, cid) {
                    VSTHostContext {
                        stage: Stage::CreateController,
                        class_id: Some(cid),
                        controller_path: Some(ControllerPath::Factory),
                        ..self
                    }
                } else {
                    VSTHostContext {
                        stage: Stage::QueryController,
                        controller_path: Some(ControllerPath::Query),
                        ..self
                    }
                },
                _ => self.spec_fail(LoadError::Protocol),
            },
            Stage::CreateController | Stage::QueryController => match response {
                Response::Pointer { status, address } => if spec_obtained(status, address) {
                    VSTHostContext {
                        stage: Stage::InitializeComponent,
                        editor: Some(address),
                        ..self
                    }
                } else {
                    self.spec_fail(LoadError::Status(status))
                },
                _ => self.spec_fail(LoadError::Protocol),
            },
            Stage::InitializeComponent => match response {
                Response::Status(status) => self.spec_expect_ok(
                    status,
                    Stage::QueryComponentConnection,
                ),
                _ => self.spec_fail(LoadError::Protocol),
            },
            Stage::QueryComponentConnection => match response {
                Response::Pointer { status, address } => if spec_obtained(status, address) {
                    VSTHostContext {
                        stage: Stage::QueryControllerConnection,
                        component_connection: Some(address),
                        ..self
                    }
                } else {
                    self.spec_fail(LoadError::Status(status))
                },
                _ => self.spec_fail(LoadError::Protocol),
            },
            Stage::QueryControllerConnection => match response {
                Response::Pointer { status, address } => if spec_obtained(status, address) {
                    VSTHostContext {
                        stage: Stage::ConnectComponent,
                        controller_connection: Some(address),
                        ..self
                    }
                } else {
                    self.spec_fail(LoadError::Status(status))
                },
                _ => self.spec_fail(LoadError::Protocol),
            },
            Stage::ConnectComponent => match response {
                Response::Status(status) => self.spec_expect_ok(status, Stage::ConnectController),
                _ => self.spec_fail(LoadError::Protocol),
            },
            Stage::ConnectController => match response {
                Response::Status(status) => if status == TResult::ResultOk {
                    VSTHostContext { stage: Stage::QueryProcessor, connected: true, ..self }
                } else {
                    self.spec_fail(LoadError::Status(status))
                },
                _ => self.spec_fail(LoadError::Protocol),
            },
            Stage::QueryProcessor => match response {
                Response::Pointer { status, address } => if spec_obtained(status, address) {
                    VSTHostContext {
                        stage: Stage::SetupProcessing,
                        processor: Some(address),
                        ..self
                    }
                } else {
                    self.spec_fail(LoadError::Status(status))
                },
                _ => self.spec_fail(LoadError::Protocol),
            },
            Stage::SetupProcessing => match response {
                Response::Status(status) => self.spec_expect_ok(status, Stage::CountInputBuses),
                _ => self.spec_fail(LoadError::Protocol),
            },
            Stage::CountInputBuses => match response {
                Response::Count(count) => if count > 0 {
                    VSTHostContext {
                        stage: Stage::GetInputBusInfo,
                        input_buses: count,
                        bus_index: 0,
                        ..self
                    }
                } else {
                    VSTHostContext { stage: Stage::CountOutputBuses, input_buses: 0, ..self }
                },
                _ => self.spec_fail(LoadError::Protocol),
            },
            Stage::GetInputBusInfo => match response {
                Response::Status(status) => if status != TResult::ResultOk {
                    self.spec_fail(LoadError::Status(status))
                } else if self.bus_index < self.input_buses - 1 {
                    VSTHostContext { bus_index: (self.bus_index + 1) as i32, ..self }
                } else {
                    VSTHostContext { stage: Stage::CountOutputBuses, ..self }
                },
                _ => self.spec_fail(LoadError::Protocol),
            },
            Stage::CountOutputBuses => match response {
                Response::Count(count) => if count > 0 {
                    VSTHostContext {
                        stage: Stage::GetOutputBusInfo,
                        output_buses: count,
                        bus_index: 0,
                        ..self
                    }
                } else {
                    VSTHostContext { stage: Stage::ActivateInputBus, output_buses: 0, ..self }
                },
                _ => self.spec_fail(LoadError::Protocol),
            },
            Stage::GetOutputBusInfo => match response {
                Response::Status(status) => if status != TResult::ResultOk {
                    self.spec_fail(LoadError::Status(status))
                } else if self.bus_index < self.output_buses - 1 {
                    VSTHostContext { bus_index: (self.bus_index + 1) as i32, ..self }
                } else {
                    VSTHostContext { stage: Stage::ActivateInputBus, ..self }
                },
                _ => self.spec_fail(LoadError::Protocol),
            },
            Stage::ActivateInputBus => match response {
                Response::Status(status) => VSTHostContext {
                    stage: Stage::ActivateOutputBus,
                    ..self
                },
                _ => self.spec_fail(LoadError::Protocol),
            },
            Stage::ActivateOutputBus => match response {
                Response::Status(status) => VSTHostContext {
                    stage: Stage::SetActive,
                    buses_activated: true,
                    ..self
                },
                _ => self.spec_fail(LoadError::Protocol),
            },
            Stage::SetActive => match response {
                Response::Status(status) => if status == TResult::ResultOk {
                    VSTHostContext { stage: Stage::InitializeController, active: true, ..self }
                } else {
                    self.spec_fail(LoadError::Status(status))
                },
                _ => self.spec_fail(LoadError::Protocol),
            },
            Stage::InitializeController => match response {
                Response::Status(status) => if status == TResult::ResultOk {
                    VSTHostContext {
                        stage: Stage::SetComponentHandler,
                        controller_initialized: true,
                        ..self
                    }
                } else {
                    VSTHostContext { stage: Stage::Ready, ..self }
                },
                _ => VSTHostContext { stage: Stage::Ready, ..self },
            },
            Stage::SetComponentHandler => match response {
                Response::Status(status) => if status == TResult::ResultOk {
                    VSTHostContext { stage: Stage::CreateView, ..self }
                } else {
                    VSTHostContext { stage: Stage::Ready, ..self }
                },
                _ => VSTHostContext { stage: Stage::Ready, ..self },
            },
            Stage::CreateView => match response {
                Response::Pointer { status, address } => if address != 0 {
                    VSTHostContext { stage: Stage::SetFrame, view: Some(address), ..self }
                } else {
                    VSTHostContext { stage: Stage::Ready, ..self }
                },
                _ => VSTHostContext { stage: Stage::Ready, ..self },
            },
            Stage::SetFrame => VSTHostContext { stage: Stage::Ready, ..self },
            Stage::Ready => self,
            Stage::Releasing => self.spec_released(),
            Stage::Finished => self,
        }
    }

    /// The state of the instance in the terms of the plugin format.
    pub open spec fn spec_state(self) -> PluginState {
        if self.detached {
            PluginState::Detached
        } else if self.processing {
            PluginState::Processing
        } else if self.active {
            PluginState::Active
        } else if self.buses_activated {
            PluginState::Configured
        } else if self.factory is Some {
            PluginState::Loaded
        } else {
            PluginState::Uninitialized
        }
    }

    /// What holds of every context that construction and teardown can
    /// reach.
    pub open spec fn inv(self) -> bool {
        let o = self.stage.spec_ordinal();
        &&& self.stage == Stage::Finished ==> !self.spec_holds_any()
        &&& self.stage == Stage::Releasing ==> self.spec_holds_any()
        &&& o <= 26 ==> {
            &&& self.failure is None
            &&& (self.detached ==> o == 26 && !self.attached)
            &&& self.module == (o >= 1)
            &&& self.host == (o >= 1)
            &&& self.handler == (o >= 1)
            &&& (self.factory is Some) == (o >= 2)
            &&& (self.component is Some) == (o >= 5)
            &&& (self.controller_path is Some) == (o >= 7)
            &&& (self.stage == Stage::CreateController ==> self.controller_path == Some(
                ControllerPath::Factory,
            ))
            &&& (self.stage == Stage::QueryController ==> self.controller_path == Some(
                ControllerPath::Query,
            ))
            &&& (self.editor is Some) == (o >= 8)
            &&& (self.component_connection is Some) == (o >= 10)
            &&& (self.controller_connection is Some) == (o >= 11)
            &&& self.connected == (o >= 13)
            &&& (self.processor is Some) == (o >= 14)
            &&& self.buses_activated == (o >= 21)
            &&& self.active == (o >= 22)
            &&& (self.controller_initialized ==> o >= 23)
            &&& (o >= 23 && o <= 25 ==> self.controller_initialized)
            &&& (self.view is Some ==> o >= 25)
            &&& (o == 25 ==> self.view is Some)
            &&& (o < 26 ==> !self.processing && !self.attached)
        }
        &&& self.view is Some ==> self.editor is Some || self.stage == Stage::Releasing
        &&& self.attached ==> self.view is Some && (self.controller_initialized || self.stage
            == Stage::Releasing)
        &&& self.controller_initialized ==> self.editor is Some && (self.connected || self.stage
            == Stage::Releasing)
        &&& self.processing ==> self.processor is Some && (self.active || self.stage
            == Stage::Releasing)
        &&& self.active ==> self.component is Some && self.buses_activated
        &&& self.connected ==> self.component_connection is Some
            && self.controller_connection is Some
        &&& self.editor is Some ==> self.controller_path is Some
    }

    pub fn new() -> (context: VSTHostContext)
        ensures
            context == VSTHostContext::spec_new(),
    {
        VSTHostContext {
            stage: Stage::LoadModule,
            module: false,
            factory: None,
            component: None,
            processor: None,
            editor: None,
            view: None,
            host: false,
            handler: false,
            component_connection: None,
            controller_connection: None,
            class_count: 0,
            class_index: 0,
            class_id: None,
            controller_path: None,
            bus_index: 0,
            input_buses: 0,
            output_buses: 0,
            connected: false,
            buses_activated: false,
            active: false,
            controller_initialized: false,
            processing: false,
            attached: false,
            detached: false,
            failure: None,
        }
    }

    pub fn holds_any(&self) -> (yes: bool)
        ensures
            yes == self.spec_holds_any(),
    {
        self.module || self.factory.is_some() || self.component.is_some()
            || self.processor.is_some() || self.editor.is_some() || self.view.is_some()
            || self.component_connection.is_some() || self.controller_connection.is_some()
    }

    pub fn holds(&self, role: Role) -> (yes: bool)
        ensures
            yes == self.spec_holds(role),
    {
        match role {
            Role::Factory => self.factory.is_some(),
            Role::Component => self.component.is_some(),
            Role::Controller => self.editor.is_some(),
            Role::ComponentConnection => self.component_connection.is_some(),
            Role::ControllerConnection => self.controller_connection.is_some(),
            Role::Processor => self.processor.is_some(),
            Role::View => self.view.is_some(),
        }
    }

    /// The address of the pointer of a role, if the instance holds it.
    pub fn pointer(&self, role: Role) -> (address: Option<usize>)
        ensures
            address == match role {
                Role::Factory => self.factory,
                Role::Component => self.component,
                Role::Controller => self.editor,
                Role::ComponentConnection => self.component_connection,
                Role::ControllerConnection => self.controller_connection,
                Role::Processor => self.processor,
                Role::View => self.view,
            },
    {
        match role {
            Role::Factory => self.factory,
            Role::Component => self.component,
            Role::Controller => self.editor,
            Role::ComponentConnection => self.component_connection,
            Role::ControllerConnection => self.controller_connection,
            Role::Processor => self.processor,
            Role::View => self.view,
        }
    }

    fn next_release(&self) -> (request: Request)
        ensures
            request == self.spec_next_release(),
    {
        if self.controller_connection.is_some() {
            Request::Release(Role::ControllerConnection)
        } else if self.component_connection.is_some() {
            Request::Release(Role::ComponentConnection)
        } else if self.view.is_some() && self.attached {
            Request::ViewRemoved
        } else if self.view.is_some() {
            Request::Release(Role::View)
        } else if self.editor.is_some() {
            Request::Release(Role::Controller)
        } else if self.processor.is_some() {
            Request::Release(Role::Processor)
        } else if self.component.is_some() {
            Request::Release(Role::Component)
        } else if self.factory.is_some() {
            Request::Release(Role::Factory)
        } else if self.module {
            Request::DropModule
        } else {
            Request::Finished(self.failure)
        }
    }

    fn released(self) -> (next: VSTHostContext)
        ensures
            next == self.spec_released(),
    {
        let next = if self.controller_connection.is_some() {
            VSTHostContext { controller_connection: None, connected: false, ..self }
        } else if self.component_connection.is_some() {
            VSTHostContext { component_connection: None, connected: false, ..self }
        } else if self.view.is_some() && self.attached {
            VSTHostContext { attached: false, detached: true, ..self }
        } else if self.view.is_some() {
            VSTHostContext { view: None, ..self }
        } else if self.editor.is_some() {
            VSTHostContext { editor: None, controller_initialized: false, ..self }
        } else if self.processor.is_some() {
            VSTHostContext { processor: None, processing: false, ..self }
        } else if self.component.is_some() {
            VSTHostContext { component: None, active: false, ..self }
        } else if self.factory.is_some() {
            VSTHostContext { factory: None, ..self }
        } else {
            VSTHostContext { module: false, host: false, handler: false, ..self }
        };
        let stage = if next.holds_any() {
            Stage::Releasing
        } else {
            Stage::Finished
        };
        VSTHostContext { stage, ..next }
    }

    fn teardown(self) -> (next: VSTHostContext)
        ensures
            next == self.spec_teardown(),
    {
        let any = self.holds_any();
        let stage = if any {
            Stage::Releasing
        } else {
            Stage::Finished
        };
        VSTHostContext { stage, host: self.host && any, handler: self.handler && any, ..self }
    }

    fn fail(self, error: LoadError) -> (next: VSTHostContext)
        ensures
            next == self.spec_fail(error),
    {
        let failure = if self.failure.is_some() {
            self.failure
        } else {
            Some(error)
        };
        let failed = VSTHostContext { failure, ..self };
        failed.teardown()
    }

    fn at(self, stage: Stage) -> (next: VSTHostContext)
        ensures
            next == (VSTHostContext { stage, ..self }),
    {
        VSTHostContext { stage, ..self }
    }

    fn expect_ok(self, status: TResult, stage: Stage) -> (next: VSTHostContext)
        ensures
            next == self.spec_expect_ok(status, stage),
    {
        match status_result(status) {
            Ok(()) => self.at(stage),
            Err(failing) => self.fail(LoadError::Status(failing)),
        }
    }

    /// The call that the caller is to make now.
    pub fn request(&self) -> (request: Request)
        ensures
            request == self.spec_request(),
    {
        match self.stage {
            Stage::LoadModule => Request::LoadModule,
            Stage::GetFactory => Request::GetFactory,
            Stage::CountClasses => Request::CountClasses,
            Stage::GetClassInfo => Request::GetClassInfo(self.class_index),
            Stage::CreateComponent => Request::CreateInstance {
                role: Role::Component,
                interface: InterfaceKind::IComponent,
            },
            Stage::SetIoMode => Request::SetIoMode(IoMode::Advanced),
            Stage::GetControllerClassId => Request::GetControllerClassId,
            Stage::CreateController => Request::CreateInstance {
                role: Role::Controller,
                interface: InterfaceKind::IEditController,
            },
            Stage::QueryController => Request::QueryInterface {
                from: Role::Component,
                role: Role::Controller,
                interface: InterfaceKind::IEditController,
            },
            Stage::InitializeComponent => Request::Initialize(Role::Component),
            Stage::QueryComponentConnection => Request::QueryInterface {
                from: Role::Component,
                role: Role::ComponentConnection,
                interface: InterfaceKind::IConnectionPoint,
            },
            Stage::QueryControllerConnection => Request::QueryInterface {
                from: Role::Controller,
                role: Role::ControllerConnection,
                interface: InterfaceKind::IConnectionPoint,
            },
            Stage::ConnectComponent => Request::Connect {
                from: Role::ComponentConnection,
                to: Role::ControllerConnection,
            },
            Stage::ConnectController => Request::Connect {
                from: Role::ControllerConnection,
                to: Role::ComponentConnection,
            },
            Stage::QueryProcessor => Request::QueryInterface {
                from: Role::Component,
                role: Role::Processor,
                interface: InterfaceKind::IAudioProcessor,
            },
            Stage::SetupProcessing => Request::SetupProcessing(ProcessSetup::initial()),
            Stage::CountInputBuses => Request::GetBusCount(BusDirection::Input),
            Stage::GetInputBusInfo => Request::GetBusInfo(BusDirection::Input, self.bus_index),
            Stage::CountOutputBuses => Request::GetBusCount(BusDirection::Output),
            Stage::GetOutputBusInfo => Request::GetBusInfo(BusDirection::Output, self.bus_index),
            Stage::ActivateInputBus => Request::ActivateBus(BusDirection::Input, 0),
            Stage::ActivateOutputBus => Request::ActivateBus(BusDirection::Output, 0),
            Stage::SetActive => Request::SetActive(true),
            Stage::InitializeController => Request::Initialize(Role::Controller),
            Stage::SetComponentHandler => Request::SetComponentHandler,
            Stage::CreateView => Request::CreateView,
            Stage::SetFrame => Request::SetFrame,
            Stage::Ready => Request::Ready,
            Stage::Releasing => self.next_release(),
            Stage::Finished => Request::Finished(self.failure),
        }
    }

    fn names_controller(&self, status: TResult, cid: &FUID) -> (yes: bool)
        ensures
            yes == self.spec_names_controller(status, *cid),
    {
        let own = match self.class_id {
            Some(own) => uid_eq(&own, cid),
            None => false,
        };
        status.is_ok() && !own
    }

    fn obtained(status: TResult, address: usize) -> (yes: bool)
        ensures
            yes == spec_obtained(status, address),
    {
        pointer_result(status, address).is_ok()
    }

    fn stepped_loading(self, response: Response) -> (next: VSTHostContext)
        requires
            self.stage == Stage::LoadModule
                || self.stage == Stage::GetFactory
                || self.stage == Stage::CountClasses
                || self.stage == Stage::GetClassInfo
                || self.stage == Stage::CreateComponent
                || self.stage == Stage::SetIoMode
                || self.stage == Stage::GetControllerClassId,
        ensures
            next == self.spec_step(response),
    {
        match self.stage {
            Stage::LoadModule => match response {
                Response::Module(Ok(())) => {
                    VSTHostContext {
                        stage: Stage::GetFactory,
                        module: true,
                        host: true,
                        handler: true,
                        ..self
                    }
                },
                Response::Module(Err(error)) => self.fail(LoadError::Module(error)),
                _ => self.fail(LoadError::Protocol),
            },
            Stage::GetFactory => match response {
                Response::Pointer { status, address } => if address != 0 {
                    VSTHostContext { stage: Stage::CountClasses, factory: Some(address), ..self }
                } else {
                    self.fail(LoadError::Module(ModuleError::NullFactory))
                },
                Response::Module(Err(error)) => self.fail(LoadError::Module(error)),
                _ => self.fail(LoadError::Protocol),
            },
            Stage::CountClasses => match response {
                Response::Count(count) => if count > 0 {
                    VSTHostContext {
                        stage: Stage::GetClassInfo,
                        class_count: count,
                        class_index: 0,
                        ..self
                    }
                } else {
                    self.fail(LoadError::NoAudioModuleClass)
                },
                _ => self.fail(LoadError::Protocol),
            },
            Stage::GetClassInfo => match response {
                Response::ClassInfo { status, info } => if !status.is_ok() {
                    self.fail(LoadError::Status(status))
                } else if info.is_audio_module() {
                    VSTHostContext {
                        stage: Stage::CreateComponent,
                        class_id: Some(info.cid),
                        ..self
                    }
                } else if self.class_count > i32::MIN && self.class_index < self.class_count - 1 {
                    VSTHostContext { class_index: self.class_index + 1, ..self }
                } else {
                    self.fail(LoadError::NoAudioModuleClass)
                },
                _ => self.fail(LoadError::Protocol),
            },
            Stage::CreateComponent => match response {
                Response::Pointer { status, address } => if Self::obtained(status, address) {
                    VSTHostContext { stage: Stage::SetIoMode, component: Some(address), ..self }
                } else {
                    self.fail(LoadError::Status(status))
                },
                _ => self.fail(LoadError::Protocol),
            },
            Stage::SetIoMode => match response {
                Response::Status(status) => self.expect_ok(status, Stage::GetControllerClassId),
                _ => self.fail(LoadError::Protocol),
            },
            Stage::GetControllerClassId => match response {
                Response::ClassId { status, cid } => if self.names_controller(status, &cid) {
                    VSTHostContext {
                        stage: Stage::CreateController,
                        class_id: Some(cid),
                        controller_path: Some(ControllerPath::Factory),
                        ..self
                    }
                } else {
                    VSTHostContext {
                        stage: Stage::QueryController,
                        controller_path: Some(ControllerPath::Query),
                        ..self
                    }
                },
                _ => self.fail(LoadError::Protocol),
            },
            _ => self,
        }
    }

    fn stepped_connecting(self, response: Response) -> (next: VSTHostContext)
        requires
            self.stage == Stage::CreateController
                || self.stage == Stage::QueryController
                || self.stage == Stage::InitializeComponent
                || self.stage == Stage::QueryComponentConnection
                || self.stage == Stage::QueryControllerConnection
                || self.stage == Stage::ConnectComponent
                || self.stage == Stage::ConnectController
                || self.stage == Stage::QueryProcessor,
        ensures
            next == self.spec_step(response),
    {
        match self.stage {
            Stage::CreateController | Stage::QueryController => match response {
                Response::Pointer { status, address } => if Self::obtained(status, address) {
                    VSTHostContext {
                        stage: Stage::InitializeComponent,
                        editor: Some(address),
                        ..self
                    }
                } else {
                    self.fail(LoadError::Status(status))
                },
                _ => self.fail(LoadError::Protocol),
            },
            Stage::InitializeComponent => match response {
                Response::Status(status) => self.expect_ok(status, Stage::QueryComponentConnection),
                _ => self.fail(LoadError::Protocol),
            },
            Stage::QueryComponentConnection => match response {
                Response::Pointer { status, address } => if Self::obtained(status, address) {
                    VSTHostContext {
                        stage: Stage::QueryControllerConnection,
                        component_connection: Some(address),
                        ..self
                    }
                } else {
                    self.fail(LoadError::Status(status))
                },
                _ => self.fail(LoadError::Protocol),
            },
            Stage::QueryControllerConnection => match response {
                Response::Pointer { status, address } => if Self::obtained(status, address) {
                    VSTHostContext {
                        stage: Stage::ConnectComponent,
                        controller_connection: Some(address),
                        ..self
                    }
                } else {
                    self.fail(LoadError::Status(status))
                },
                _ => self.fail(LoadError::Protocol),
            },
            Stage::ConnectComponent => match response {
                Response::Status(status) => self.expect_ok(status, Stage::ConnectController),
                _ => self.fail(LoadError::Protocol),
            },
            Stage::ConnectController => match response {
                Response::Status(status) => if status.is_ok() {
                    VSTHostContext { stage: Stage::QueryProcessor, connected: true, ..self }
                } else {
                    self.fail(LoadError::Status(status))
                },
                _ => self.fail(LoadError::Protocol),
            },
            Stage::QueryProcessor => match response {
                Response::Pointer { status, address } => if Self::obtained(status, address) {
                    VSTHostContext {
                        stage: Stage::SetupProcessing,
                        processor: Some(address),
                        ..self
                    }
                } else {
                    self.fail(LoadError::Status(status))
                },
                _ => self.fail(LoadError::Protocol),
            },
            _ => self,
        }
    }

    fn stepped_configuring(self, response: Response) -> (next: VSTHostContext)
        requires
            self.stage == Stage::SetupProcessing
                || self.stage == Stage::CountInputBuses
                || self.stage == Stage::GetInputBusInfo
                || self.stage == Stage::CountOutputBuses
                || self.stage == Stage::GetOutputBusInfo
                || self.stage == Stage::ActivateInputBus
                || self.stage == Stage::ActivateOutputBus,
        ensures
            next == self.spec_step(response),
    {
        match self.stage {
            Stage::SetupProcessing => match response {
                Response::Status(status) => self.expect_ok(status, Stage::CountInputBuses),
                _ => self.fail(LoadError::Protocol),
            },
            Stage::CountInputBuses => match response {
                Response::Count(count) => if count > 0 {
                    VSTHostContext {
                        stage: Stage::GetInputBusInfo,
                        input_buses: count,
                        bus_index: 0,
                        ..self
                    }
                } else {
                    VSTHostContext { stage: Stage::CountOutputBuses, input_buses: 0, ..self }
                },
                _ => self.fail(LoadError::Protocol),
            },
            Stage::GetInputBusInfo => match response {
                Response::Status(status) => if !status.is_ok() {
                    self.fail(LoadError::Status(status))
                } else if self.input_buses > i32::MIN && self.bus_index < self.input_buses - 1 {
                    VSTHostContext { bus_index: self.bus_index + 1, ..self }
                } else {
                    self.at(Stage::CountOutputBuses)
                },
                _ => self.fail(LoadError::Protocol),
            },
            Stage::CountOutputBuses => match response {
                Response::Count(count) => if count > 0 {
                    VSTHostContext {
                        stage: Stage::GetOutputBusInfo,
                        output_buses: count,
                        bus_index: 0,
                        ..self
                    }
                } else {
                    VSTHostContext { stage: Stage::ActivateInputBus, output_buses: 0, ..self }
                },
                _ => self.fail(LoadError::Protocol),
            },
            Stage::GetOutputBusInfo => match response {
                Response::Status(status) => if !status.is_ok() {
                    self.fail(LoadError::Status(status))
                } else if self.output_buses > i32::MIN && self.bus_index < self.output_buses - 1 {
                    VSTHostContext { bus_index: self.bus_index + 1, ..self }
                } else {
                    self.at(Stage::ActivateInputBus)
                },
                _ => self.fail(LoadError::Protocol),
            },
            Stage::ActivateInputBus => match response {
                Response::Status(status) => self.at(Stage::ActivateOutputBus),
                _ => self.fail(LoadError::Protocol),
            },
            Stage::ActivateOutputBus => match response {
                Response::Status(status) => {
                    VSTHostContext { stage: Stage::SetActive, buses_activated: true, ..self }
                },
                _ => self.fail(LoadError::Protocol),
            },
            _ => self,
        }
    }

    fn stepped_finishing(self, response: Response) -> (next: VSTHostContext)
        requires
            self.stage == Stage::SetActive
                || self.stage == Stage::InitializeController
                || self.stage == Stage::SetComponentHandler
                || self.stage == Stage::CreateView
                || self.stage == Stage::SetFrame
                || self.stage == Stage::Ready
                || self.stage == Stage::Releasing
                || self.stage == Stage::Finished,
        ensures
            next == self.spec_step(response),
    {
        match self.stage {
            Stage::SetActive => match response {
                Response::Status(status) => if status.is_ok() {
                    VSTHostContext { stage: Stage::InitializeController, active: true, ..self }
                } else {
                    self.fail(LoadError::Status(status))
                },
                _ => self.fail(LoadError::Protocol),
            },
            Stage::InitializeController => match response {
                Response::Status(status) => if status.is_ok() {
                    VSTHostContext {
                        stage: Stage::SetComponentHandler,
                        controller_initialized: true,
                        ..self
                    }
                } else {
                    self.at(Stage::Ready)
                },
                _ => self.at(Stage::Ready),
            },
            Stage::SetComponentHandler => match response {
                Response::Status(status) => if status.is_ok() {
                    self.at(Stage::CreateView)
                } else {
                    self.at(Stage::Ready)
                },
                _ => self.at(Stage::Ready),
            },
            Stage::CreateView => match response {
                Response::Pointer { status, address } => if address != 0 {
                    VSTHostContext { stage: Stage::SetFrame, view: Some(address), ..self }
                } else {
                    self.at(Stage::Ready)
                },
                _ => self.at(Stage::Ready),
            },
            Stage::SetFrame => self.at(Stage::Ready),
            Stage::Ready => self,
            Stage::Releasing => self.released(),
            Stage::Finished => self,
            _ => self,
        }
    }

    fn stepped(self, response: Response) -> (next: VSTHostContext)
        ensures
            next == self.spec_step(response),
    {
        match self.stage {
            Stage::LoadModule
            | Stage::GetFactory
            | Stage::CountClasses
            | Stage::GetClassInfo
            | Stage::CreateComponent
            | Stage::SetIoMode
            | Stage::GetControllerClassId => self.stepped_loading(response),
            Stage::CreateController
            | Stage::QueryController
            | Stage::InitializeComponent
            | Stage::QueryComponentConnection
            | Stage::QueryControllerConnection
            | Stage::ConnectComponent
            | Stage::ConnectController
            | Stage::QueryProcessor => self.stepped_connecting(response),
            Stage::SetupProcessing
            | Stage::CountInputBuses
            | Stage::GetInputBusInfo
            | Stage::CountOutputBuses
            | Stage::GetOutputBusInfo
            | Stage::ActivateInputBus
            | Stage::ActivateOutputBus => self.stepped_configuring(response),
            Stage::SetActive
            | Stage::InitializeController
            | Stage::SetComponentHandler
            | Stage::CreateView
            | Stage::SetFrame
            | Stage::Ready
            | Stage::Releasing
            | Stage::Finished => self.stepped_finishing(response),
        }
    }

    /// Takes what the outstanding call returned, and names the next call.
    ///
    /// Up to and including the activation of the component, a failing
    /// status aborts construction: what was acquired is released in
    /// teardown order, and the error is reported when nothing is left. A
    /// bus that cannot be activated does not count as a failure. After
    /// activation a failure ends construction where it stands, with
    /// the instance ready as far as it got.
    pub fn step(&mut self, response: Response) -> (request: Request)
        ensures
            *final(self) == old(self).spec_step(response),
            request == final(self).spec_request(),
    {
        *self = self.stepped(response);
        self.request()
    }

    /// Starts teardown, and names its first call. Teardown goes on with
    /// `step` until `Request::Finished` comes back.
    pub fn begin_teardown(&mut self) -> (request: Request)
        ensures
            *final(self) == old(self).spec_teardown(),
            request == final(self).spec_request(),
    {
        *self = self.teardown();
        self.request()
    }

    pub fn state(&self) -> (state: PluginState)
        ensures
            state == self.spec_state(),
    {
        if self.detached {
            PluginState::Detached
        } else if self.processing {
            PluginState::Processing
        } else if self.active {
            PluginState::Active
        } else if self.buses_activated {
            PluginState::Configured
        } else if self.factory.is_some() {
            PluginState::Loaded
        } else {
            PluginState::Uninitialized
        }
    }

    /// Whether the instance is constructed and can process audio: it rests
    /// at `Ready`, its component is active and it holds an audio processor.
    pub open spec fn spec_can_process(self) -> bool {
        self.stage == Stage::Ready && self.active && self.processor is Some
    }

    pub fn can_process(&self) -> (yes: bool)
        ensures
            yes == self.spec_can_process(),
    {
        self.stage == Stage::Ready && self.active && self.processor.is_some()
    }

    pub open spec fn spec_set_processing(self, on: bool, status: TResult) -> VSTHostContext {
        if self.spec_can_process() && status == TResult::ResultOk {
            VSTHostContext { processing: on, ..self }
        } else {
            self
        }
    }

    /// Records that the audio processor was told to start or stop
    /// processing, and answered with `status`. Only an active, constructed
    /// instance changes, and only on an ok status.
    pub fn set_processing(&mut self, on: bool, status: TResult) -> (changed: bool)
        ensures
            *final(self) == old(self).spec_set_processing(on, status),
            changed == (old(self).spec_can_process() && status == TResult::ResultOk),
    {
        if self.can_process() && status.is_ok() {
            self.processing = on;
            true
        } else {
            false
        }
    }

    /// Whether the view may be attached to a window: the instance is
    /// constructed, holds a view that is not attached, and its controller is
    /// initialized.
    pub open spec fn spec_can_attach(self) -> bool {
        &&& self.stage == Stage::Ready
        &&& self.view is Some
        &&& self.controller_initialized
        &&& !self.attached
        &&& !self.detached
    }

    pub fn can_attach(&self) -> (yes: bool)
        ensures
            yes == self.spec_can_attach(),
    {
        self.stage == Stage::Ready && self.view.is_some() && self.controller_initialized
            && !self.attached && !self.detached
    }

    pub open spec fn spec_view_attached(self, status: TResult) -> VSTHostContext {
        if self.spec_can_attach() && status == TResult::ResultOk {
            VSTHostContext { attached: true, ..self }
        } else {
            self
        }
    }

    /// Records that the view was attached to a window, with the status that
    /// the view answered.
    pub fn view_attached(&mut self, status: TResult) -> (attached: bool)
        ensures
            *final(self) == old(self).spec_view_attached(status),
            attached == (old(self).spec_can_attach() && status == TResult::ResultOk),
    {
        if self.can_attach() && status.is_ok() {
            self.attached = true;
            true
        } else {
            false
        }
    }

    pub open spec fn spec_view_removed(self) -> VSTHostContext {
        if self.stage == Stage::Ready && self.attached {
            VSTHostContext { attached: false, detached: true, ..self }
        } else {
            self
        }
    }

    /// Records that the window was closed and the view told so. Returns
    /// whether the view was attached, that is whether it had to be told.
    pub fn view_removed(&mut self) -> (was_attached: bool)
        ensures
            *final(self) == old(self).spec_view_removed(),
            was_attached == (old(self).stage == Stage::Ready && old(self).attached),
    {
        if self.stage == Stage::Ready && self.attached {
            self.attached = false;
            self.detached = true;
            true
        } else {
            false
        }
    }
}

/// The role whose pointer the outstanding call hands over, if `response`
/// holds one that was obtained.
pub open spec fn spec_acquires(context: VSTHostContext, response: Response) -> Option<Role> {
    match response {
        Response::Pointer { status, address } => match context.stage {
            Stage::GetFactory => if address != 0 {
                Some(Role::Factory)
            } else {
                None
            },
            Stage::CreateComponent => if spec_obtained(status, address) {
                Some(Role::Component)
            } else {
                None
            },
            Stage::CreateController | Stage::QueryController => if spec_obtained(status, address) {
                Some(Role::Controller)
            } else {
                None
            },
            Stage::QueryComponentConnection => if spec_obtained(status, address) {
                Some(Role::ComponentConnection)
            } else {
                None
            },
            Stage::QueryControllerConnection => if spec_obtained(status, address) {
                Some(Role::ControllerConnection)
            } else {
                None
            },
            Stage::QueryProcessor => if spec_obtained(status, address) {
                Some(Role::Processor)
            } else {
                None
            },
            Stage::CreateView => if address != 0 {
                Some(Role::View)
            } else {
                None
            },
            _ => None,
        },
        _ => None,
    }
}

/// The role whose pointer the outstanding call releases, if it is a
/// release.
pub open spec fn spec_releases(context: VSTHostContext) -> Option<Role> {
    match context.spec_request() {
        Request::Release(role) => Some(role),
        _ => None,
    }
}

/// One for a thing that is held, zero for one that is not.
pub open spec fn spec_one_if(held: bool) -> nat {
    if held {
        1
    } else {
        0
    }
}

/// The number of calls that teardown still has to make.
pub open spec fn spec_calls_left(context: VSTHostContext) -> nat {
    spec_one_if(context.controller_connection is Some) + spec_one_if(
        context.component_connection is Some,
    ) + spec_one_if(context.view is Some && context.attached) + spec_one_if(
        context.view is Some,
    ) + spec_one_if(context.editor is Some) + spec_one_if(context.processor is Some)
        + spec_one_if(context.component is Some) + spec_one_if(context.factory is Some)
        + spec_one_if(context.module)
}

/// The calls that teardown makes from a context on, in order.
pub open spec fn spec_teardown_calls(context: VSTHostContext) -> Seq<Request>
    decreases spec_calls_left(context),
{
    if spec_calls_left(context) == 0 {
        Seq::empty()
    } else {
        seq![context.spec_next_release()] + spec_teardown_calls(context.spec_released())
    }
}

/// How often a call occurs among calls.
pub open spec fn spec_occurrences(calls: Seq<Request>, call: Request) -> nat
    decreases calls.len(),
{
    if calls.len() == 0 {
        0
    } else {
        spec_occurrences(calls.drop_first(), call) + if calls[0] == call {
            1nat
        } else {
            0nat
        }
    }
}

/// A fresh context is well-formed.
pub proof fn lemma_new_is_well_formed()
    ensures
        VSTHostContext::spec_new().inv(),
{
}

/// Every step keeps the context well-formed, whatever the call returned.
pub proof fn lemma_step_keeps_well_formed(context: VSTHostContext, response: Response)
    requires
        context.inv(),
    ensures
        context.spec_step(response).inv(),
{
}

/// Starting teardown, and the operations on a constructed instance, keep
/// the context well-formed.
pub proof fn lemma_operations_keep_well_formed(
    context: VSTHostContext,
    on: bool,
    status: TResult,
)
    requires
        context.inv(),
    ensures
        context.spec_teardown().inv(),
        context.spec_fail(LoadError::Status(status)).inv(),
        context.spec_set_processing(on, status).inv(),
        context.spec_view_attached(status).inv(),
        context.spec_view_removed().inv(),
{
}

/// The order that the plugin format demands, in every context that can be
/// reached: the controller is obtained on exactly one of the two paths; it
/// is initialized only when both connection points are connected; the
/// component is active only after activation was asked of its buses, and
/// processing only while active; the view is attached only after the
/// controller is initialized.
pub proof fn lemma_order_of_construction(context: VSTHostContext)
    requires
        context.inv(),
        context.stage != Stage::Releasing,
    ensures
        context.editor is Some ==> context.controller_path is Some,
        context.controller_initialized ==> context.connected,
        context.connected ==> context.component_connection is Some
            && context.controller_connection is Some,
        context.active ==> context.buses_activated,
        context.processing ==> context.active,
        context.attached ==> context.controller_initialized && context.view is Some,
{
}

/// Reference hygiene, step by step: after a step the instance holds a
/// pointer if and only if it held it before or the call handed it over, and
/// the call was not its release. No pointer is handed over for a role that
/// holds one already, so none is lost; none is released that is not held.
pub proof fn lemma_references_balance(context: VSTHostContext, response: Response, role: Role)
    requires
        context.inv(),
    ensures
        context.spec_step(response).spec_holds(role) == ((context.spec_holds(role)
            || spec_acquires(context, response) == Some(role)) && !(context.stage
            == Stage::Releasing && spec_releases(context) == Some(role))),
        spec_acquires(context, response) == Some(role) ==> !context.spec_holds(role),
        context.stage == Stage::Releasing && spec_releases(context) == Some(role)
            ==> context.spec_holds(role),
        context.stage != Stage::Releasing ==> !(context.spec_request() is Release),
{
}

/// No call of teardown is left exactly when nothing is held.
pub proof fn lemma_calls_left_zero(context: VSTHostContext)
    ensures
        (spec_calls_left(context) == 0) == !context.spec_holds_any(),
{
}

/// Teardown ends: each of its steps leaves one call less to make, and it is
/// finished exactly when none is left.
pub proof fn lemma_teardown_progress(context: VSTHostContext)
    requires
        context.spec_holds_any(),
    ensures
        spec_calls_left(context.spec_released()) + 1 == spec_calls_left(context),
        (context.spec_released().stage == Stage::Finished) == (spec_calls_left(
            context.spec_released(),
        ) == 0),
        context.spec_released().stage == Stage::Releasing || context.spec_released().stage
            == Stage::Finished,
{
    let next = context.spec_released();
    lemma_calls_left_zero(next);
    let c = context;
    let n = next;
    assert(n.controller_connection is Some == (c.controller_connection is Some && false));
    assert(n.component_connection is Some == (c.component_connection is Some
        && c.controller_connection is Some));
    let upper = c.controller_connection is Some || c.component_connection is Some;
    assert((n.view is Some && n.attached) == (c.view is Some && c.attached && upper));
    assert(n.view is Some == (c.view is Some && (upper || c.attached)));
    let upper2 = upper || c.view is Some;
    assert(n.editor is Some == (c.editor is Some && upper2));
    let upper3 = upper2 || c.editor is Some;
    assert(n.processor is Some == (c.processor is Some && upper3));
    let upper4 = upper3 || c.processor is Some;
    assert(n.component is Some == (c.component is Some && upper4));
    let upper5 = upper4 || c.component is Some;
    assert(n.factory is Some == (c.factory is Some && upper5));
    let upper6 = upper5 || c.factory is Some;
    assert(n.module == (c.module && upper6));
}

/// The calls of teardown release every pointer that the instance holds
/// exactly once, and no other.
pub proof fn lemma_teardown_releases_once(context: VSTHostContext, role: Role)
    ensures
        spec_occurrences(spec_teardown_calls(context), Request::Release(role)) == if context.spec_holds(
            role,
        ) {
            1nat
        } else {
            0nat
        },
    decreases spec_calls_left(context),
{
    if spec_calls_left(context) != 0 {
        let next = context.spec_released();
        lemma_teardown_releases_once(next, role);
        let calls = spec_teardown_calls(context);
        assert(calls.drop_first() =~= spec_teardown_calls(next));
    }
}

/// Teardown tells the view of its removal if and only if it is attached,
/// and gives the module back if and only if the instance holds it, each
/// once.
pub proof fn lemma_teardown_removes_view_once(context: VSTHostContext)
    ensures
        spec_occurrences(spec_teardown_calls(context), Request::ViewRemoved) == if context.view is Some
            && context.attached {
            1nat
        } else {
            0nat
        },
        spec_occurrences(spec_teardown_calls(context), Request::DropModule) == if context.module {
            1nat
        } else {
            0nat
        },
    decreases spec_calls_left(context),
{
    if spec_calls_left(context) != 0 {
        let next = context.spec_released();
        lemma_teardown_removes_view_once(next);
        let calls = spec_teardown_calls(context);
        assert(calls.drop_first() =~= spec_teardown_calls(next));
    }
}

/// A bus that cannot be activated does not abort construction: whatever
/// status the activation returns, construction goes on.
pub proof fn lemma_bus_activation_never_aborts(context: VSTHostContext, status: TResult)
    requires
        context.stage == Stage::ActivateInputBus || context.stage == Stage::ActivateOutputBus,
    ensures
        context.spec_step(Response::Status(status)).failure == context.failure,
        context.stage == Stage::ActivateInputBus ==> context.spec_step(
            Response::Status(status),
        ).stage == Stage::ActivateOutputBus,
        context.stage == Stage::ActivateOutputBus ==> context.spec_step(
            Response::Status(status),
        ).stage == Stage::SetActive,
{
}

/// Before the component is active a failing status aborts construction;
/// from then on none does.
pub proof fn lemma_failure_semantics(context: VSTHostContext, status: TResult)
    requires
        context.inv(),
        context.stage.spec_ordinal() <= 26,
        status != TResult::ResultOk,
    ensures
        ({
            let next = context.spec_step(Response::Status(status));
            let stage = context.stage;
            &&& (stage == Stage::SetIoMode || stage == Stage::InitializeComponent || stage
                == Stage::ConnectComponent || stage == Stage::ConnectController || stage
                == Stage::SetupProcessing || stage == Stage::GetInputBusInfo || stage
                == Stage::GetOutputBusInfo || stage == Stage::SetActive) ==> next.failure == Some(
                LoadError::Status(status),
            ) && next.stage == Stage::Releasing
            &&& stage.spec_ordinal() >= 22 ==> next.failure is None && next.stage == Stage::Ready
        }),
{
}

/// The states of an instance follow each other as the plugin format lays
/// down: construction moves forward one state at a time.
pub proof fn lemma_states_during_construction(context: VSTHostContext, response: Response)
    requires
        context.inv(),
        context.stage.spec_ordinal() <= 26,
        context.spec_step(response).stage.spec_ordinal() <= 26,
    ensures
        ({
            let before = context.spec_state();
            let after = context.spec_step(response).spec_state();
            ||| after == before
            ||| before == PluginState::Uninitialized && after == PluginState::Loaded
            ||| before == PluginState::Loaded && after == PluginState::Configured
            ||| before == PluginState::Configured && after == PluginState::Active
        }),
{
}

/// Switching processing moves between active and processing; closing the
/// window of an attached view leads to detached.
pub proof fn lemma_states_after_construction(context: VSTHostContext, on: bool, status: TResult)
    requires
        context.inv(),
        context.stage == Stage::Ready,
    ensures
        ({
            let before = context.spec_state();
            let after = context.spec_set_processing(on, status).spec_state();
            ||| after == before
            ||| before == PluginState::Active && after == PluginState::Processing
            ||| before == PluginState::Processing && after == PluginState::Active
        }),
        context.spec_view_attached(status).spec_state() == context.spec_state(),
        context.attached ==> context.spec_view_removed().spec_state() == PluginState::Detached,
        !context.attached ==> context.spec_view_removed() == context,
{
}

/// What can happen to a plugin instance.
pub enum Event {
    /// The outstanding call returned.
    Answer(Response),
    /// Teardown was started.
    Teardown,
    /// The processor was told to start or stop processing, and answered.
    Processing(bool, TResult),
    /// The view was attached to a window, and answered.
    Attached(TResult),
    /// The window of the view was closed.
    Removed,
}

/// The context after an event.
pub open spec fn spec_after(context: VSTHostContext, event: Event) -> VSTHostContext {
    match event {
        Event::Answer(response) => context.spec_step(response),
        Event::Teardown => context.spec_teardown(),
        Event::Processing(on, status) => context.spec_set_processing(on, status),
        Event::Attached(status) => context.spec_view_attached(status),
        Event::Removed => context.spec_view_removed(),
    }
}

/// The role whose pointer an event hands over, if it hands one over.
pub open spec fn spec_event_acquires(context: VSTHostContext, event: Event) -> Option<Role> {
    match event {
        Event::Answer(response) => spec_acquires(context, response),
        _ => None,
    }
}

/// The role whose pointer is released by the call that an event answers,
/// if that call is a release.
pub open spec fn spec_event_releases(context: VSTHostContext, event: Event) -> Option<Role> {
    match event {
        Event::Answer(response) => if context.stage == Stage::Releasing {
            spec_releases(context)
        } else {
            None
        },
        _ => None,
    }
}

/// The context after a run of events, in order.
pub open spec fn spec_run(context: VSTHostContext, events: Seq<Event>) -> VSTHostContext
    decreases events.len(),
{
    if events.len() == 0 {
        context
    } else {
        spec_run(spec_after(context, events[0]), events.drop_first())
    }
}

/// How often a run hands the pointer of a role over.
pub open spec fn spec_acquired(context: VSTHostContext, events: Seq<Event>, role: Role) -> nat
    decreases events.len(),
{
    if events.len() == 0 {
        0
    } else {
        spec_one_if(spec_event_acquires(context, events[0]) == Some(role)) + spec_acquired(
            spec_after(context, events[0]),
            events.drop_first(),
            role,
        )
    }
}

/// How often a run releases the pointer of a role.
pub open spec fn spec_released(context: VSTHostContext, events: Seq<Event>, role: Role) -> nat
    decreases events.len(),
{
    if events.len() == 0 {
        0
    } else {
        spec_one_if(spec_event_releases(context, events[0]) == Some(role)) + spec_released(
            spec_after(context, events[0]),
            events.drop_first(),
            role,
        )
    }
}

/// The stage at which the pointer of a role is handed over.
pub open spec fn spec_acquired_at(role: Role) -> nat {
    match role {
        Role::Factory => 1,
        Role::Component => 4,
        Role::Controller => 7,
        Role::ComponentConnection => 9,
        Role::ControllerConnection => 10,
        Role::Processor => 13,
        Role::View => 24,
    }
}

/// The controller never goes back: every event leaves it at its stage or
/// takes it to a later one, and an event that hands a pointer over takes it
/// past the stage of that pointer.
pub proof fn lemma_stages_go_forward(context: VSTHostContext, event: Event, role: Role)
    requires
        context.inv(),
    ensures
        spec_after(context, event).stage.spec_ordinal() >= context.stage.spec_ordinal(),
        spec_event_acquires(context, event) == Some(role) ==> context.stage.spec_ordinal()
            == spec_acquired_at(role) && spec_after(context, event).stage.spec_ordinal()
            > spec_acquired_at(role),
{
}

/// Every event keeps the context well-formed, and the balance of its
/// references: afterwards the instance holds a pointer if and only if it
/// held it before or was handed it, and did not release it.
pub proof fn lemma_event_balances(context: VSTHostContext, event: Event, role: Role)
    requires
        context.inv(),
    ensures
        spec_after(context, event).inv(),
        spec_one_if(context.spec_holds(role)) + spec_one_if(
            spec_event_acquires(context, event) == Some(role),
        ) == spec_one_if(spec_event_releases(context, event) == Some(role)) + spec_one_if(
            spec_after(context, event).spec_holds(role),
        ),
{
    match event {
        Event::Answer(response) => {
            lemma_step_keeps_well_formed(context, response);
            lemma_references_balance(context, response, role);
        },
        Event::Teardown => {
            lemma_operations_keep_well_formed(context, true, TResult::ResultOk);
        },
        Event::Processing(on, status) => {
            lemma_operations_keep_well_formed(context, on, status);
        },
        Event::Attached(status) => {
            lemma_operations_keep_well_formed(context, true, status);
        },
        Event::Removed => {
            lemma_operations_keep_well_formed(context, true, TResult::ResultOk);
        },
    }
}

/// Reference hygiene over a whole run, whatever the calls return: what the
/// instance holds at the end is what it held at the start, and what it was
/// handed, less what it released; it stays well-formed; and no pointer is
/// handed over twice.
pub proof fn lemma_run_balances(context: VSTHostContext, events: Seq<Event>, role: Role)
    requires
        context.inv(),
    ensures
        spec_run(context, events).inv(),
        spec_one_if(context.spec_holds(role)) + spec_acquired(context, events, role)
            == spec_released(context, events, role) + spec_one_if(
            spec_run(context, events).spec_holds(role),
        ),
        spec_acquired(context, events, role) + spec_one_if(
            context.stage.spec_ordinal() > spec_acquired_at(role),
        ) <= 1,
    decreases events.len(),
{
    if events.len() > 0 {
        let next = spec_after(context, events[0]);
        lemma_event_balances(context, events[0], role);
        lemma_stages_go_forward(context, events[0], role);
        lemma_run_balances(next, events.drop_first(), role);
    }
}

/// From the first call to the end of teardown, every pointer that the
/// plugin hands over is released exactly once, and none is handed over
/// more than once.
pub proof fn lemma_whole_life_balances(events: Seq<Event>, role: Role)
    requires
        spec_run(VSTHostContext::spec_new(), events).stage == Stage::Finished,
    ensures
        spec_acquired(VSTHostContext::spec_new(), events, role) == spec_released(
            VSTHostContext::spec_new(),
            events,
            role,
        ),
        spec_acquired(VSTHostContext::spec_new(), events, role) <= 1,
{
    lemma_new_is_well_formed();
    lemma_run_balances(VSTHostContext::spec_new(), events, role);
}

} // verus!
