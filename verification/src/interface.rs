//! The interface runtime: which interfaces exist, how each is identified,
//! how its function table is laid out, and what a query for an identifier
//! may be answered with.

use crate::uid::{inline_uid, spec_inline_uid, uid_eq, FUID};
use vstd::prelude::*;

verus! {

/// The interfaces of the plugin format that the host speaks.
#[derive(Debug, Clone, Copy, PartialEq, Eq, Structural)]
pub enum InterfaceKind {
    FUnknown,
    IPluginFactory,
    IPluginBase,
    IPlugView,
    IAudioProcessor,
    IComponent,
    IEditController,
    IPlugViewContentScaleSupport,
    IPlugFrame,
    IParameterChanges,
    IHostApplication,
    IComponentHandler,
    IComponentHandler2,
    IConnectionPoint,
    IMessage,
    IAttributeList,
}

/// One entry of a function table: the `index`-th method that `interface`
/// itself declares.
#[derive(Debug, Clone, Copy, PartialEq, Eq, Structural)]
pub struct VtableSlot {
    pub interface: InterfaceKind,
    pub index: u8,
}

impl InterfaceKind {
    /// The four words that the identifier of the interface is declared with.
    pub open spec fn spec_words(self) -> (u32, u32, u32, u32) {
        match self {
            InterfaceKind::FUnknown => (
                0x0000_0000u32,
                0x0000_0000u32,
                0xC000_0000u32,
                0x0000_0046u32,
            ),
            InterfaceKind::IPluginFactory => (
                0x7A4D_811Cu32,
                0x5211_4A1Fu32,
                0xAED9_D2EEu32,
                0x0B43_BF9Fu32,
            ),
            InterfaceKind::IPluginBase => (
                0x2288_8DDBu32,
                0x156E_45AEu32,
                0x8358_B348u32,
                0x0819_0625u32,
            ),
            InterfaceKind::IPlugView => (
                0x5BC3_2507u32,
                0xD060_49EAu32,
                0xA615_1B52u32,
                0x2B75_5B29u32,
            ),
            InterfaceKind::IAudioProcessor => (
                0x4204_3F99u32,
                0xB7DA_453Cu32,
                0xA569_E79Du32,
                0x9AAE_C33Du32,
            ),
            InterfaceKind::IComponent => (
                0xE831_FF31u32,
                0xF2D5_4301u32,
                0x928E_BBEEu32,
                0x2569_7802u32,
            ),
            InterfaceKind::IEditController => (
                0xDCD7_BBE3u32,
                0x7742_448Du32,
                0xA874_AACCu32,
                0x979C_759Eu32,
            ),
            InterfaceKind::IPlugViewContentScaleSupport => (
                0x65ED_9690u32,
                0x8AC4_4525u32,
                0x8AAD_EF7Au32,
                0x72EA_703Fu32,
            ),
            InterfaceKind::IPlugFrame => (
                0x367F_AF01u32,
                0xAFA9_4693u32,
                0x8D4D_A2A0u32,
                0xED08_82A3u32,
            ),
            InterfaceKind::IParameterChanges => (
                0xA477_9663u32,
                0x0BB6_4A56u32,
                0xB443_84A8u32,
                0x466F_EB9Du32,
            ),
            InterfaceKind::IHostApplication => (
                0x58E5_95CCu32,
                0xDB2D_4969u32,
                0x8B6A_AF8Cu32,
                0x36A6_64E5u32,
            ),
            InterfaceKind::IComponentHandler => (
                0x93A0_BEA3u32,
                0x0BD0_45DBu32,
                0x8E89_0B0Cu32,
                0xC1E4_6AC6u32,
            ),
            InterfaceKind::IComponentHandler2 => (
                0xF040_B4B3u32,
                0xA360_45ECu32,
                0xABCD_C045u32,
                0xB4D5_A2CCu32,
            ),
            InterfaceKind::IConnectionPoint => (
                0x70A4_156Fu32,
                0x6E6E_4026u32,
                0x9891_48BFu32,
                0xAA60_D8D1u32,
            ),
            InterfaceKind::IMessage => (
                0x936F_033Bu32,
                0xC6C0_47DBu32,
                0xBB08_82F8u32,
                0x13C1_E613u32,
            ),
            InterfaceKind::IAttributeList => (
                0x1E5F_0AEBu32,
                0xCC7F_4533u32,
                0xA254_4011u32,
                0x38AD_5EE4u32,
            ),
        }
    }

    /// The identifier of the interface.
    pub open spec fn spec_iid(self) -> Seq<u8> {
        let w = self.spec_words();
        spec_inline_uid(w.0, w.1, w.2, w.3)
    }

    /// The interface that this one extends; the base interface extends none.
    pub open spec fn spec_parent(self) -> Option<InterfaceKind> {
        match self {
            InterfaceKind::FUnknown => None,
            InterfaceKind::IComponent => Some(InterfaceKind::IPluginBase),
            InterfaceKind::IEditController => Some(InterfaceKind::IPluginBase),
            InterfaceKind::IPlugViewContentScaleSupport => Some(InterfaceKind::IPlugView),
            _ => Some(InterfaceKind::FUnknown),
        }
    }

    /// How many interfaces lie between this one and the base interface.
    pub open spec fn spec_depth(self) -> nat {
        match self {
            InterfaceKind::FUnknown => 0,
            InterfaceKind::IComponent => 2,
            InterfaceKind::IEditController => 2,
            InterfaceKind::IPlugViewContentScaleSupport => 2,
            _ => 1,
        }
    }

    /// How many methods the interface declares itself, beyond its parent's.
    pub open spec fn spec_own_methods(self) -> nat {
        match self {
            InterfaceKind::FUnknown => 3,
            InterfaceKind::IPluginFactory => 4,
            InterfaceKind::IPluginBase => 2,
            InterfaceKind::IPlugView => 12,
            InterfaceKind::IAudioProcessor => 8,
            InterfaceKind::IComponent => 9,
            InterfaceKind::IEditController => 13,
            InterfaceKind::IPlugViewContentScaleSupport => 1,
            InterfaceKind::IPlugFrame => 1,
            InterfaceKind::IParameterChanges => 3,
            InterfaceKind::IHostApplication => 2,
            InterfaceKind::IComponentHandler => 4,
            InterfaceKind::IComponentHandler2 => 4,
            InterfaceKind::IConnectionPoint => 3,
            InterfaceKind::IMessage => 3,
            InterfaceKind::IAttributeList => 8,
        }
    }

    /// Whether `ancestor` is this interface or one that it extends, directly
    /// or not.
    pub open spec fn spec_extends(self, ancestor: InterfaceKind) -> bool
        decreases self.spec_depth(),
    {
        self == ancestor || match self.spec_parent() {
            Some(parent) => parent.spec_extends(ancestor),
            None => false,
        }
    }

    pub fn words(self) -> (words: (u32, u32, u32, u32))
        ensures
            words == self.spec_words(),
    {
        match self {
            InterfaceKind::FUnknown => (0x0000_0000, 0x0000_0000, 0xC000_0000, 0x0000_0046),
            InterfaceKind::IPluginFactory => (0x7A4D_811C, 0x5211_4A1F, 0xAED9_D2EE, 0x0B43_BF9F),
            InterfaceKind::IPluginBase => (0x2288_8DDB, 0x156E_45AE, 0x8358_B348, 0x0819_0625),
            InterfaceKind::IPlugView => (0x5BC3_2507, 0xD060_49EA, 0xA615_1B52, 0x2B75_5B29),
            InterfaceKind::IAudioProcessor => (0x4204_3F99, 0xB7DA_453C, 0xA569_E79D, 0x9AAE_C33D),
            InterfaceKind::IComponent => (0xE831_FF31, 0xF2D5_4301, 0x928E_BBEE, 0x2569_7802),
            InterfaceKind::IEditController => (0xDCD7_BBE3, 0x7742_448D, 0xA874_AACC, 0x979C_759E),
            InterfaceKind::IPlugViewContentScaleSupport => (
                0x65ED_9690,
                0x8AC4_4525,
                0x8AAD_EF7A,
                0x72EA_703F,
            ),
            InterfaceKind::IPlugFrame => (0x367F_AF01, 0xAFA9_4693, 0x8D4D_A2A0, 0xED08_82A3),
            InterfaceKind::IParameterChanges => (
                0xA477_9663,
                0x0BB6_4A56,
                0xB443_84A8,
                0x466F_EB9D,
            ),
            InterfaceKind::IHostApplication => (0x58E5_95CC, 0xDB2D_4969, 0x8B6A_AF8C, 0x36A6_64E5),
            InterfaceKind::IComponentHandler => (
                0x93A0_BEA3,
                0x0BD0_45DB,
                0x8E89_0B0C,
                0xC1E4_6AC6,
            ),
            InterfaceKind::IComponentHandler2 => (
                0xF040_B4B3,
                0xA360_45EC,
                0xABCD_C045,
                0xB4D5_A2CC,
            ),
            InterfaceKind::IConnectionPoint => (0x70A4_156F, 0x6E6E_4026, 0x9891_48BF, 0xAA60_D8D1),
            InterfaceKind::IMessage => (0x936F_033B, 0xC6C0_47DB, 0xBB08_82F8, 0x13C1_E613),
            InterfaceKind::IAttributeList => (0x1E5F_0AEB, 0xCC7F_4533, 0xA254_4011, 0x38AD_5EE4),
        }
    }

    pub fn iid(self) -> (iid: FUID)
        ensures
            iid@ == self.spec_iid(),
    {
        let w = self.words();
        inline_uid(w.0, w.1, w.2, w.3)
    }

    pub fn parent(self) -> (parent: Option<InterfaceKind>)
        ensures
            parent == self.spec_parent(),
    {
        match self {
            InterfaceKind::FUnknown => None,
            InterfaceKind::IComponent => Some(InterfaceKind::IPluginBase),
            InterfaceKind::IEditController => Some(InterfaceKind::IPluginBase),
            InterfaceKind::IPlugViewContentScaleSupport => Some(InterfaceKind::IPlugView),
            _ => Some(InterfaceKind::FUnknown),
        }
    }

    pub fn own_methods(self) -> (count: u8)
        ensures
            count == self.spec_own_methods(),
    {
        match self {
            InterfaceKind::FUnknown => 3,
            InterfaceKind::IPluginFactory => 4,
            InterfaceKind::IPluginBase => 2,
            InterfaceKind::IPlugView => 12,
            InterfaceKind::IAudioProcessor => 8,
            InterfaceKind::IComponent => 9,
            InterfaceKind::IEditController => 13,
            InterfaceKind::IPlugViewContentScaleSupport => 1,
            InterfaceKind::IPlugFrame => 1,
            InterfaceKind::IParameterChanges => 3,
            InterfaceKind::IHostApplication => 2,
            InterfaceKind::IComponentHandler => 4,
            InterfaceKind::IComponentHandler2 => 4,
            InterfaceKind::IConnectionPoint => 3,
            InterfaceKind::IMessage => 3,
            InterfaceKind::IAttributeList => 8,
        }
    }

    /// Whether an object of this interface can be used as `ancestor`.
    pub fn extends(self, ancestor: InterfaceKind) -> (yes: bool)
        ensures
            yes == self.spec_extends(ancestor),
    {
        proof {
            reveal_with_fuel(InterfaceKind::spec_extends, 4);
        }
        if self == ancestor {
            return true;
        }
        match self.parent() {
            None => false,
            Some(parent) => {
                if parent == ancestor {
                    return true;
                }
                match parent.parent() {
                    None => false,
                    Some(grandparent) => grandparent == ancestor,
                }
            },
        }
    }

    /// Whether a query of an object of this interface for `iid` is answered
    /// with the object itself: `iid` names the interface, or one it extends.
    pub open spec fn spec_answers(self, iid: Seq<u8>) -> bool {
        exists|ancestor: InterfaceKind| #[trigger]
            self.spec_extends(ancestor) && ancestor.spec_iid() == iid
    }

    pub fn answers(self, iid: &FUID) -> (yes: bool)
        ensures
            yes == self.spec_answers(iid@),
    {
        proof {
            reveal_with_fuel(InterfaceKind::spec_extends, 4);
        }
        if uid_eq(&self.iid(), iid) {
            assert(self.spec_extends(self));
            return true;
        }
        match self.parent() {
            None => {
                assert forall|a: InterfaceKind| #[trigger] self.spec_extends(a) implies a == self by {}
                false
            },
            Some(parent) => {
                if uid_eq(&parent.iid(), iid) {
                    assert(self.spec_extends(parent));
                    return true;
                }
                match parent.parent() {
                    None => {
                        assert forall|a: InterfaceKind| #[trigger]
                            self.spec_extends(a) implies a == self || a == parent by {}
                        false
                    },
                    Some(grandparent) => {
                        let yes = uid_eq(&grandparent.iid(), iid);
                        assert(self.spec_extends(grandparent));
                        assert forall|a: InterfaceKind| #[trigger]
                            self.spec_extends(a) implies a == self || a == parent || a
                            == grandparent by {}
                        yes
                    },
                }
            },
        }
    }
}

impl InterfaceKind {
    /// The name of the `index`-th method that the interface declares
    /// itself, in the order of its declaration.
    pub open spec fn spec_method_name(self, index: u8) -> Option<Seq<char>> {
        match self {
            InterfaceKind::FUnknown => if index == 0 {
                Some("query_interface"@)
            } else if index == 1 {
                Some("add_ref"@)
            } else if index == 2 {
                Some("release"@)
            } else {
                None
            },
            InterfaceKind::IPluginFactory => if index == 0 {
                Some("get_factory_info"@)
            } else if index == 1 {
                Some("count_classes"@)
            } else if index == 2 {
                Some("get_class_info"@)
            } else if index == 3 {
                Some("create_instance"@)
            } else {
                None
            },
            InterfaceKind::IPluginBase => if index == 0 {
                Some("initialize"@)
            } else if index == 1 {
                Some("terminate"@)
            } else {
                None
            },
            InterfaceKind::IPlugView => if index == 0 {
                Some("is_platform_type_supported"@)
            } else if index == 1 {
                Some("attached"@)
            } else if index == 2 {
                Some("removed"@)
            } else if index == 3 {
                Some("on_wheel"@)
            } else if index == 4 {
                Some("on_key_down"@)
            } else if index == 5 {
                Some("on_key_up"@)
            } else if index == 6 {
                Some("get_size"@)
            } else if index == 7 {
                Some("on_size"@)
            } else if index == 8 {
                Some("on_focus"@)
            } else if index == 9 {
                Some("set_frame"@)
            } else if index == 10 {
                Some("can_resize"@)
            } else if index == 11 {
                Some("check_size_constraint"@)
            } else {
                None
            },
            InterfaceKind::IAudioProcessor => if index == 0 {
                Some("set_bus_arrangements"@)
            } else if index == 1 {
                Some("get_bus_arrangements"@)
            } else if index == 2 {
                Some("can_process_sample_size"@)
            } else if index == 3 {
                Some("get_latency_samples"@)
            } else if index == 4 {
                Some("setup_processing"@)
            } else if index == 5 {
                Some("set_processing"@)
            } else if index == 6 {
                Some("process"@)
            } else if index == 7 {
                Some("get_tail_samples"@)
            } else {
                None
            },
            InterfaceKind::IComponent => if index == 0 {
                Some("get_controller_class_id"@)
            } else if index == 1 {
                Some("set_io_mode"@)
            } else if index == 2 {
                Some("get_bus_count"@)
            } else if index == 3 {
                Some("get_bus_info"@)
            } else if index == 4 {
                Some("get_routing_info"@)
            } else if index == 5 {
                Some("activate_bus"@)
            } else if index == 6 {
                Some("set_active"@)
            } else if index == 7 {
                Some("set_state"@)
            } else if index == 8 {
                Some("get_state"@)
            } else {
                None
            },
            InterfaceKind::IEditController => if index == 0 {
                Some("set_component_state"@)
            } else if index == 1 {
                Some("set_state"@)
            } else if index == 2 {
                Some("get_state"@)
            } else if index == 3 {
                Some("get_parameter_count"@)
            } else if index == 4 {
                Some("get_parameter_info"@)
            } else if index == 5 {
                Some("get_param_string_by_value"@)
            } else if index == 6 {
                Some("get_param_value_by_string"@)
            } else if index == 7 {
                Some("normalized_param_to_plain"@)
            } else if index == 8 {
                Some("plain_param_to_normalized"@)
            } else if index == 9 {
                Some("get_param_normalized"@)
            } else if index == 10 {
                Some("set_param_normalized"@)
            } else if index == 11 {
                Some("set_component_handler"@)
            } else if index == 12 {
                Some("create_view"@)
            } else {
                None
            },
            InterfaceKind::IPlugViewContentScaleSupport => if index == 0 {
                Some("set_content_scale_factor"@)
            } else {
                None
            },
            InterfaceKind::IPlugFrame => if index == 0 {
                Some("resize_view"@)
            } else {
                None
            },
            InterfaceKind::IParameterChanges => if index == 0 {
                Some("get_parameter_count"@)
            } else if index == 1 {
                Some("get_parameter_data"@)
            } else if index == 2 {
                Some("add_parameter_data"@)
            } else {
                None
            },
            InterfaceKind::IHostApplication => if index == 0 {
                Some("get_name"@)
            } else if index == 1 {
                Some("create_instance"@)
            } else {
                None
            },
            InterfaceKind::IComponentHandler => if index == 0 {
                Some("begin_edit"@)
            } else if index == 1 {
                Some("perform_edit"@)
            } else if index == 2 {
                Some("end_edit"@)
            } else if index == 3 {
                Some("restart_component"@)
            } else {
                None
            },
            InterfaceKind::IComponentHandler2 => if index == 0 {
                Some("set_dirty"@)
            } else if index == 1 {
                Some("request_open_editor"@)
            } else if index == 2 {
                Some("start_group_edit"@)
            } else if index == 3 {
                Some("finish_group_edit"@)
            } else {
                None
            },
            InterfaceKind::IConnectionPoint => if index == 0 {
                Some("connect"@)
            } else if index == 1 {
                Some("disconnect"@)
            } else if index == 2 {
                Some("notify"@)
            } else {
                None
            },
            InterfaceKind::IMessage => if index == 0 {
                Some("get_message_id"@)
            } else if index == 1 {
                Some("set_message_id"@)
            } else if index == 2 {
                Some("get_attributes"@)
            } else {
                None
            },
            InterfaceKind::IAttributeList => if index == 0 {
                Some("set_int"@)
            } else if index == 1 {
                Some("get_int"@)
            } else if index == 2 {
                Some("set_float"@)
            } else if index == 3 {
                Some("get_float"@)
            } else if index == 4 {
                Some("set_string"@)
            } else if index == 5 {
                Some("get_string"@)
            } else if index == 6 {
                Some("set_binary"@)
            } else if index == 7 {
                Some("get_binary"@)
            } else {
                None
            },
        }
    }

    /// The name of a method of the interface, for logs.
    pub fn method_name(self, index: u8) -> (name: Option<&'static str>)
        ensures
            name is Some == (index < self.spec_own_methods()),
            match name {
                Some(text) => self.spec_method_name(index) == Some(text@),
                None => self.spec_method_name(index) is None,
            },
    {
        match self {
            InterfaceKind::FUnknown => match index {
                0 => Some("query_interface"),
                1 => Some("add_ref"),
                2 => Some("release"),
                _ => None,
            },
            InterfaceKind::IPluginFactory => match index {
                0 => Some("get_factory_info"),
                1 => Some("count_classes"),
                2 => Some("get_class_info"),
                3 => Some("create_instance"),
                _ => None,
            },
            InterfaceKind::IPluginBase => match index {
                0 => Some("initialize"),
                1 => Some("terminate"),
                _ => None,
            },
            InterfaceKind::IPlugView => match index {
                0 => Some("is_platform_type_supported"),
                1 => Some("attached"),
                2 => Some("removed"),
                3 => Some("on_wheel"),
                4 => Some("on_key_down"),
                5 => Some("on_key_up"),
                6 => Some("get_size"),
                7 => Some("on_size"),
                8 => Some("on_focus"),
                9 => Some("set_frame"),
                10 => Some("can_resize"),
                11 => Some("check_size_constraint"),
                _ => None,
            },
            InterfaceKind::IAudioProcessor => match index {
                0 => Some("set_bus_arrangements"),
                1 => Some("get_bus_arrangements"),
                2 => Some("can_process_sample_size"),
                3 => Some("get_latency_samples"),
                4 => Some("setup_processing"),
                5 => Some("set_processing"),
                6 => Some("process"),
                7 => Some("get_tail_samples"),
                _ => None,
            },
            InterfaceKind::IComponent => match index {
                0 => Some("get_controller_class_id"),
                1 => Some("set_io_mode"),
                2 => Some("get_bus_count"),
                3 => Some("get_bus_info"),
                4 => Some("get_routing_info"),
                5 => Some("activate_bus"),
                6 => Some("set_active"),
                7 => Some("set_state"),
                8 => Some("get_state"),
                _ => None,
            },
            InterfaceKind::IEditController => match index {
                0 => Some("set_component_state"),
                1 => Some("set_state"),
                2 => Some("get_state"),
                3 => Some("get_parameter_count"),
                4 => Some("get_parameter_info"),
                5 => Some("get_param_string_by_value"),
                6 => Some("get_param_value_by_string"),
                7 => Some("normalized_param_to_plain"),
                8 => Some("plain_param_to_normalized"),
                9 => Some("get_param_normalized"),
                10 => Some("set_param_normalized"),
                11 => Some("set_component_handler"),
                12 => Some("create_view"),
                _ => None,
            },
            InterfaceKind::IPlugViewContentScaleSupport => match index {
                0 => Some("set_content_scale_factor"),
                _ => None,
            },
            InterfaceKind::IPlugFrame => match index {
                0 => Some("resize_view"),
                _ => None,
            },
            InterfaceKind::IParameterChanges => match index {
                0 => Some("get_parameter_count"),
                1 => Some("get_parameter_data"),
                2 => Some("add_parameter_data"),
                _ => None,
            },
            InterfaceKind::IHostApplication => match index {
                0 => Some("get_name"),
                1 => Some("create_instance"),
                _ => None,
            },
            InterfaceKind::IComponentHandler => match index {
                0 => Some("begin_edit"),
                1 => Some("perform_edit"),
                2 => Some("end_edit"),
                3 => Some("restart_component"),
                _ => None,
            },
            InterfaceKind::IComponentHandler2 => match index {
                0 => Some("set_dirty"),
                1 => Some("request_open_editor"),
                2 => Some("start_group_edit"),
                3 => Some("finish_group_edit"),
                _ => None,
            },
            InterfaceKind::IConnectionPoint => match index {
                0 => Some("connect"),
                1 => Some("disconnect"),
                2 => Some("notify"),
                _ => None,
            },
            InterfaceKind::IMessage => match index {
                0 => Some("get_message_id"),
                1 => Some("set_message_id"),
                2 => Some("get_attributes"),
                _ => None,
            },
            InterfaceKind::IAttributeList => match index {
                0 => Some("set_int"),
                1 => Some("get_int"),
                2 => Some("set_float"),
                3 => Some("get_float"),
                4 => Some("set_string"),
                5 => Some("get_string"),
                6 => Some("set_binary"),
                7 => Some("get_binary"),
                _ => None,
            },
        }
    }
}

/// The name of the method at a slot.
pub fn slot_name(slot: VtableSlot) -> (name: Option<&'static str>)
    ensures
        match name {
            Some(text) => slot.interface.spec_method_name(slot.index) == Some(text@),
            None => slot.interface.spec_method_name(slot.index) is None,
        },
{
    slot.interface.method_name(slot.index)
}

/// The function table of an interface: its parent's table, then the methods
/// it declares itself, in order.
pub open spec fn spec_vtable_layout(kind: InterfaceKind) -> Seq<VtableSlot>
    decreases kind.spec_depth(),
{
    let own = Seq::new(
        kind.spec_own_methods(),
        |i: int| VtableSlot { interface: kind, index: i as u8 },
    );
    match kind.spec_parent() {
        Some(parent) => spec_vtable_layout(parent) + own,
        None => own,
    }
}

/// The `index`-th of the three methods that every interface starts with:
/// query, add a reference, release.
pub fn unknown_slot(index: u8) -> (slot: VtableSlot)
    ensures
        slot == (VtableSlot { interface: InterfaceKind::FUnknown, index }),
{
    VtableSlot { interface: InterfaceKind::FUnknown, index }
}

pub fn own_slot(interface: InterfaceKind, index: u8) -> (slot: VtableSlot)
    ensures
        slot == (VtableSlot { interface, index }),
{
    VtableSlot { interface, index }
}

fn push_own_slots(slots: &mut Vec<VtableSlot>, kind: InterfaceKind)
    ensures
        final(slots)@ == old(slots)@ + Seq::new(
            kind.spec_own_methods(),
            |i: int| VtableSlot { interface: kind, index: i as u8 },
        ),
{
    let count = kind.own_methods();
    let mut i: u8 = 0;
    while i < count
        invariant
            i <= count,
            count == kind.spec_own_methods(),
            slots@ == old(slots)@ + Seq::new(
                i as nat,
                |j: int| VtableSlot { interface: kind, index: j as u8 },
            ),
        decreases count - i,
    {
        slots.push(VtableSlot { interface: kind, index: i });
        i += 1;
        assert(slots@ =~= old(slots)@ + Seq::new(
            i as nat,
            |j: int| VtableSlot { interface: kind, index: j as u8 },
        ));
    }
}

/// Lays out the function table of an interface.
pub fn vtable_layout(kind: InterfaceKind) -> (slots: Vec<VtableSlot>)
    ensures
        slots@ == spec_vtable_layout(kind),
{
    proof {
        reveal_with_fuel(spec_vtable_layout, 4);
    }
    let mut slots: Vec<VtableSlot> = Vec::new();
    match kind.parent() {
        None => {},
        Some(parent) => {
            match parent.parent() {
                None => {},
                Some(grandparent) => {
                    push_own_slots(&mut slots, grandparent);
                },
            }
            push_own_slots(&mut slots, parent);
        },
    }
    push_own_slots(&mut slots, kind);
    assert(slots@ =~= spec_vtable_layout(kind));
    slots
}

/// The place of a method in the function table of an interface: the
/// `index`-th method that `owner` declares, where `owner` is the interface
/// or one that it extends.
pub open spec fn spec_slot_index(kind: InterfaceKind, owner: InterfaceKind, index: u8) -> Option<
    int,
> {
    let layout = spec_vtable_layout(kind);
    let slot = VtableSlot { interface: owner, index };
    if exists|i: int| 0 <= i < layout.len() && layout[i] == slot {
        Some(choose|i: int| 0 <= i < layout.len() && layout[i] == slot)
    } else {
        None
    }
}

/// Every slot stands once in a table, so its place is the only one that
/// holds it.
pub proof fn lemma_slots_distinct(kind: InterfaceKind, i: int, j: int)
    requires
        0 <= i < spec_vtable_layout(kind).len(),
        0 <= j < spec_vtable_layout(kind).len(),
        spec_vtable_layout(kind)[i] == spec_vtable_layout(kind)[j],
    ensures
        i == j,
{
    reveal_with_fuel(spec_vtable_layout, 4);
}

/// Finds the place of a method in the function table of an interface.
pub fn slot_index(kind: InterfaceKind, owner: InterfaceKind, index: u8) -> (place: Option<usize>)
    ensures
        match place {
            Some(i) => spec_slot_index(kind, owner, index) == Some(i as int) && i
                < spec_vtable_layout(kind).len() && spec_vtable_layout(kind)[i as int] == (
            VtableSlot { interface: owner, index }),
            None => spec_slot_index(kind, owner, index) is None,
        },
{
    let layout = vtable_layout(kind);
    let slot = VtableSlot { interface: owner, index };
    let mut i: usize = 0;
    while i < layout.len()
        invariant
            i <= layout@.len(),
            layout@ == spec_vtable_layout(kind),
            slot == (VtableSlot { interface: owner, index }),
            forall|j: int| 0 <= j < i ==> layout@[j] != slot,
        decreases layout@.len() - i,
    {
        if layout[i] == slot {
            proof {
                let found = choose|k: int| 0 <= k < layout@.len() && layout@[k] == slot;
                lemma_slots_distinct(kind, found, i as int);
            }
            return Some(i);
        }
        i += 1;
    }
    None
}

/// The table of the base interface holds its three methods.
pub proof fn lemma_layout_of_unknown()
    ensures
        spec_vtable_layout(InterfaceKind::FUnknown) =~= seq![
            VtableSlot { interface: InterfaceKind::FUnknown, index: 0 },
            VtableSlot { interface: InterfaceKind::FUnknown, index: 1 },
            VtableSlot { interface: InterfaceKind::FUnknown, index: 2 },
        ],
{
    reveal_with_fuel(spec_vtable_layout, 2);
}

/// The table of an interface that extends the base interface directly: the
/// three base methods, then its own.
pub proof fn lemma_layout_of_unknown_child(kind: InterfaceKind)
    requires
        kind.spec_parent() == Some(InterfaceKind::FUnknown),
    ensures
        spec_vtable_layout(kind) =~= spec_vtable_layout(InterfaceKind::FUnknown) + Seq::new(
            kind.spec_own_methods(),
            |i: int| VtableSlot { interface: kind, index: i as u8 },
        ),
        spec_vtable_layout(kind).len() == 3 + kind.spec_own_methods(),
        forall|i: int|
            0 <= i < 3 ==> #[trigger] spec_vtable_layout(kind)[i] == (VtableSlot {
                interface: InterfaceKind::FUnknown,
                index: i as u8,
            }),
        forall|i: int|
            3 <= i < 3 + kind.spec_own_methods() ==> #[trigger] spec_vtable_layout(kind)[i] == (
            VtableSlot { interface: kind, index: (i - 3) as u8 }),
{
    reveal_with_fuel(spec_vtable_layout, 3);
    lemma_layout_of_unknown();
}

/// Single inheritance: the table of an interface starts with the whole
/// table of its parent.
pub proof fn lemma_parent_layout_is_prefix(kind: InterfaceKind)
    requires
        kind.spec_parent() is Some,
    ensures
        spec_vtable_layout(kind.spec_parent().unwrap()).is_prefix_of(spec_vtable_layout(kind)),
        spec_vtable_layout(kind).len() == spec_vtable_layout(kind.spec_parent().unwrap()).len()
            + kind.spec_own_methods(),
{
    reveal_with_fuel(spec_vtable_layout, 2);
}

/// Every table starts with the three base methods, in their order.
pub proof fn lemma_layout_starts_with_unknown(kind: InterfaceKind)
    ensures
        spec_vtable_layout(InterfaceKind::FUnknown).is_prefix_of(spec_vtable_layout(kind)),
        spec_vtable_layout(kind).len() >= 3,
        forall|i: int|
            0 <= i < 3 ==> #[trigger] spec_vtable_layout(kind)[i] == (VtableSlot {
                interface: InterfaceKind::FUnknown,
                index: i as u8,
            }),
    decreases kind.spec_depth(),
{
    lemma_layout_of_unknown();
    match kind.spec_parent() {
        None => {},
        Some(parent) => {
            lemma_layout_starts_with_unknown(parent);
            lemma_parent_layout_is_prefix(kind);
        },
    }
}

/// The table of an ancestor is a prefix of the table of every interface
/// that extends it: a pointer to the wider table serves as the narrower one.
pub proof fn lemma_ancestor_layout_is_prefix(kind: InterfaceKind, ancestor: InterfaceKind)
    requires
        kind.spec_extends(ancestor),
    ensures
        spec_vtable_layout(ancestor).is_prefix_of(spec_vtable_layout(kind)),
    decreases kind.spec_depth(),
{
    if kind != ancestor {
        let parent = kind.spec_parent().unwrap();
        lemma_ancestor_layout_is_prefix(parent, ancestor);
        lemma_parent_layout_is_prefix(kind);
    }
}

/// No two interfaces share an identifier.
pub proof fn lemma_iids_distinct(a: InterfaceKind, b: InterfaceKind)
    requires
        a.spec_iid() == b.spec_iid(),
    ensures
        a == b,
{
    crate::uid::lemma_inline_uid_injective(a.spec_words(), b.spec_words());
}

/// The interface that an identifier names, if the host knows it.
pub open spec fn spec_kind_of(iid: Seq<u8>) -> Option<InterfaceKind> {
    if exists|kind: InterfaceKind| #[trigger] kind.spec_iid() == iid {
        Some(choose|kind: InterfaceKind| #[trigger] kind.spec_iid() == iid)
    } else {
        None
    }
}

/// Every interface is found again by its identifier.
pub proof fn lemma_kind_of_iid(kind: InterfaceKind)
    ensures
        spec_kind_of(kind.spec_iid()) == Some(kind),
{
    let found = choose|k: InterfaceKind| #[trigger] k.spec_iid() == kind.spec_iid();
    lemma_iids_distinct(found, kind);
}

fn kind_at(index: u8) -> (kind: InterfaceKind)
    requires
        index < 16,
    ensures
        kind == spec_kind_at(index as int),
{
    match index {
        0 => InterfaceKind::FUnknown,
        1 => InterfaceKind::IPluginFactory,
        2 => InterfaceKind::IPluginBase,
        3 => InterfaceKind::IPlugView,
        4 => InterfaceKind::IAudioProcessor,
        5 => InterfaceKind::IComponent,
        6 => InterfaceKind::IEditController,
        7 => InterfaceKind::IPlugViewContentScaleSupport,
        8 => InterfaceKind::IPlugFrame,
        9 => InterfaceKind::IParameterChanges,
        10 => InterfaceKind::IHostApplication,
        11 => InterfaceKind::IComponentHandler,
        12 => InterfaceKind::IComponentHandler2,
        13 => InterfaceKind::IConnectionPoint,
        14 => InterfaceKind::IMessage,
        _ => InterfaceKind::IAttributeList,
    }
}

/// The interfaces in the order of their declaration.
pub open spec fn spec_kind_at(index: int) -> InterfaceKind {
    if index == 0 {
        InterfaceKind::FUnknown
    } else if index == 1 {
        InterfaceKind::IPluginFactory
    } else if index == 2 {
        InterfaceKind::IPluginBase
    } else if index == 3 {
        InterfaceKind::IPlugView
    } else if index == 4 {
        InterfaceKind::IAudioProcessor
    } else if index == 5 {
        InterfaceKind::IComponent
    } else if index == 6 {
        InterfaceKind::IEditController
    } else if index == 7 {
        InterfaceKind::IPlugViewContentScaleSupport
    } else if index == 8 {
        InterfaceKind::IPlugFrame
    } else if index == 9 {
        InterfaceKind::IParameterChanges
    } else if index == 10 {
        InterfaceKind::IHostApplication
    } else if index == 11 {
        InterfaceKind::IComponentHandler
    } else if index == 12 {
        InterfaceKind::IComponentHandler2
    } else if index == 13 {
        InterfaceKind::IConnectionPoint
    } else if index == 14 {
        InterfaceKind::IMessage
    } else {
        InterfaceKind::IAttributeList
    }
}

proof fn lemma_kind_at_covers(kind: InterfaceKind)
    ensures
        exists|i: int| 0 <= i < 16 && #[trigger] spec_kind_at(i) == kind,
{
    match kind {
        InterfaceKind::FUnknown => assert(spec_kind_at(0) == kind),
        InterfaceKind::IPluginFactory => assert(spec_kind_at(1) == kind),
        InterfaceKind::IPluginBase => assert(spec_kind_at(2) == kind),
        InterfaceKind::IPlugView => assert(spec_kind_at(3) == kind),
        InterfaceKind::IAudioProcessor => assert(spec_kind_at(4) == kind),
        InterfaceKind::IComponent => assert(spec_kind_at(5) == kind),
        InterfaceKind::IEditController => assert(spec_kind_at(6) == kind),
        InterfaceKind::IPlugViewContentScaleSupport => assert(spec_kind_at(7) == kind),
        InterfaceKind::IPlugFrame => assert(spec_kind_at(8) == kind),
        InterfaceKind::IParameterChanges => assert(spec_kind_at(9) == kind),
        InterfaceKind::IHostApplication => assert(spec_kind_at(10) == kind),
        InterfaceKind::IComponentHandler => assert(spec_kind_at(11) == kind),
        InterfaceKind::IComponentHandler2 => assert(spec_kind_at(12) == kind),
        InterfaceKind::IConnectionPoint => assert(spec_kind_at(13) == kind),
        InterfaceKind::IMessage => assert(spec_kind_at(14) == kind),
        InterfaceKind::IAttributeList => assert(spec_kind_at(15) == kind),
    }
}

/// Finds the interface that an identifier names.
pub fn kind_of(iid: &FUID) -> (kind: Option<InterfaceKind>)
    ensures
        kind == spec_kind_of(iid@),
{
    let mut i: u8 = 0;
    while i < 16
        invariant
            i <= 16,
            forall|j: int| 0 <= j < i ==> (#[trigger] spec_kind_at(j)).spec_iid() != iid@,
        decreases 16 - i,
    {
        let kind = kind_at(i);
        if uid_eq(&kind.iid(), iid) {
            proof {
                let found = choose|k: InterfaceKind| #[trigger] k.spec_iid() == iid@;
                lemma_iids_distinct(found, kind);
            }
            return Some(kind);
        }
        i += 1;
    }
    proof {
        assert forall|k: InterfaceKind| #[trigger] k.spec_iid() != iid@ by {
            lemma_kind_at_covers(k);
        }
    }
    None
}

/// Flags of a plugin factory, as bits of its info record.
#[derive(Debug, Clone, Copy, PartialEq, Eq, Structural, Default)]
pub enum FactoryFlags {
    #[default]
    NoFlags,
    ClassesDiscardable,
    LicenseCheck,
    ComponentNonDiscardable,
    Unicode,
}

impl FactoryFlags {
    pub open spec fn spec_bits(self) -> u32 {
        match self {
            FactoryFlags::NoFlags => 0u32,
            FactoryFlags::ClassesDiscardable => 1u32,
            FactoryFlags::LicenseCheck => 2u32,
            FactoryFlags::ComponentNonDiscardable => 8u32,
            FactoryFlags::Unicode => 16u32,
        }
    }

    /// The flag as a bit mask.
    pub fn bits(self) -> (bits: u32)
        ensures
            bits == self.spec_bits(),
    {
        match self {
            FactoryFlags::NoFlags => 0,
            FactoryFlags::ClassesDiscardable => 1,
            FactoryFlags::LicenseCheck => 2,
            FactoryFlags::ComponentNonDiscardable => 8,
            FactoryFlags::Unicode => 16,
        }
    }
}

/// The bytes of a buffer before its first NUL, or all of them if it holds
/// none.
pub open spec fn spec_c_string(buffer: Seq<u8>) -> Seq<u8>
    decreases buffer.len(),
{
    if buffer.len() == 0 || buffer[0] == 0 {
        Seq::empty()
    } else {
        seq![buffer[0]] + spec_c_string(buffer.subrange(1, buffer.len() as int))
    }
}

/// The category that marks the processing component of a plugin.
pub open spec fn spec_audio_module_category() -> Seq<u8> {
    seq![
        0x41u8, 0x75, 0x64, 0x69, 0x6F, 0x20, 0x4D, 0x6F, 0x64, 0x75, 0x6C, 0x65, 0x20, 0x43,
        0x6C, 0x61, 0x73, 0x73,
    ]
}

/// One class that a plugin factory offers. Category and name are
/// NUL-terminated text in fixed buffers.
#[derive(Debug, Clone, Copy)]
pub struct PClassInfo {
    pub cid: FUID,
    pub cardinality: i32,
    pub category: [u8; 32],
    pub name: [u8; 64],
}

/// Who made the plugin. The fields are NUL-terminated text in fixed buffers.
#[derive(Debug, Clone, Copy)]
pub struct PFactoryInfo {
    pub vendor: [u8; 64],
    pub url: [u8; 256],
    pub email: [u8; 128],
    pub flags: FactoryFlags,
}

/// Copies the bytes of a buffer up to its first NUL.
pub fn c_string(buffer: &[u8]) -> (text: Vec<u8>)
    ensures
        text@ == spec_c_string(buffer@),
{
    let mut text: Vec<u8> = Vec::new();
    let mut i: usize = 0;
    proof {
        assert(buffer@.subrange(0, buffer@.len() as int) =~= buffer@);
        assert(text@ + spec_c_string(buffer@) =~= spec_c_string(buffer@));
    }
    while i < buffer.len() && buffer[i] != 0
        invariant
            i <= buffer@.len(),
            spec_c_string(buffer@) == text@ + spec_c_string(
                buffer@.subrange(i as int, buffer@.len() as int),
            ),
        decreases buffer@.len() - i,
    {
        let rest = Ghost(buffer@.subrange(i as int, buffer@.len() as int));
        text.push(buffer[i]);
        i += 1;
        proof {
            assert(rest@.subrange(1, rest@.len() as int) =~= buffer@.subrange(
                i as int,
                buffer@.len() as int,
            ));
            assert(text@ + spec_c_string(buffer@.subrange(i as int, buffer@.len() as int))
                =~= text@.drop_last() + spec_c_string(rest@));
        }
    }
    proof {
        let rest = buffer@.subrange(i as int, buffer@.len() as int);
        assert(spec_c_string(rest) =~= Seq::<u8>::empty());
        assert(text@ + Seq::<u8>::empty() =~= text@);
    }
    text
}

impl PClassInfo {
    /// The category of the class, without the padding of its buffer.
    pub open spec fn spec_category(self) -> Seq<u8> {
        spec_c_string(self.category@)
    }

    pub open spec fn spec_is_audio_module(self) -> bool {
        self.spec_category() == spec_audio_module_category()
    }

    pub fn category(&self) -> (text: Vec<u8>)
        ensures
            text@ == self.spec_category(),
    {
        c_string(self.category.as_slice())
    }

    /// Whether the class is the processing component of a plugin: its
    /// category reads "Audio Module Class".
    pub fn is_audio_module(&self) -> (yes: bool)
        ensures
            yes == self.spec_is_audio_module(),
    {
        let text = self.category();
        let expected: [u8; 18] = [
            0x41, 0x75, 0x64, 0x69, 0x6F, 0x20, 0x4D, 0x6F, 0x64, 0x75, 0x6C, 0x65, 0x20, 0x43,
            0x6C, 0x61, 0x73, 0x73,
        ];
        assert(expected@ =~= spec_audio_module_category());
        if text.len() != 18 {
            return false;
        }
        let mut i: usize = 0;
        while i < 18
            invariant
                i <= 18,
                text@.len() == 18,
                text@ == self.spec_category(),
                expected@ == spec_audio_module_category(),
                forall|j: int| 0 <= j < i ==> text@[j] == expected@[j],
            decreases 18 - i,
        {
            if text[i] != expected[i] {
                assert(text@[i as int] != spec_audio_module_category()[i as int]);
                return false;
            }
            i += 1;
        }
        assert(text@ =~= expected@);
        true
    }
}

impl Default for PClassInfo {
    fn default() -> (info: PClassInfo)
        ensures
            info.cid@ == Seq::new(16, |i: int| 0u8),
            info.cardinality == 0,
            info.category@ == Seq::new(32, |i: int| 0u8),
            info.name@ == Seq::new(64, |i: int| 0u8),
    {
        let info =
            PClassInfo { cid: [0u8; 16], cardinality: 0, category: [0u8; 32], name: [0u8; 64] };
        assert(info.cid@ =~= Seq::new(16, |i: int| 0u8));
        assert(info.category@ =~= Seq::new(32, |i: int| 0u8));
        assert(info.name@ =~= Seq::new(64, |i: int| 0u8));
        info
    }
}

impl Default for PFactoryInfo {
    fn default() -> (info: PFactoryInfo)
        ensures
            info.vendor@ == Seq::new(64, |i: int| 0u8),
            info.url@ == Seq::new(256, |i: int| 0u8),
            info.email@ == Seq::new(128, |i: int| 0u8),
            info.flags == FactoryFlags::NoFlags,
    {
        let info = PFactoryInfo {
            vendor: [0u8; 64],
            url: [0u8; 256],
            email: [0u8; 128],
            flags: FactoryFlags::NoFlags,
        };
        assert(info.vendor@ =~= Seq::new(64, |i: int| 0u8));
        assert(info.url@ =~= Seq::new(256, |i: int| 0u8));
        assert(info.email@ =~= Seq::new(128, |i: int| 0u8));
        info
    }
}

} // verus!
