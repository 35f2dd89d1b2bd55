use voxea::interface::slot_index;
use voxea::interface::{
    c_string, kind_of, vtable_layout, FactoryFlags, InterfaceKind, PClassInfo, PFactoryInfo,
    VtableSlot,
};
use voxea::status::TResult;
use voxea::uid::{inline_uid, uid_eq, uid_to_ascii, uid_words};

const ALL_KINDS: [InterfaceKind; 16] = [
    InterfaceKind::FUnknown,
    InterfaceKind::IPluginFactory,
    InterfaceKind::IPluginBase,
    InterfaceKind::IPlugView,
    InterfaceKind::IAudioProcessor,
    InterfaceKind::IComponent,
    InterfaceKind::IEditController,
    InterfaceKind::IPlugViewContentScaleSupport,
    InterfaceKind::IPlugFrame,
    InterfaceKind::IParameterChanges,
    InterfaceKind::IHostApplication,
    InterfaceKind::IComponentHandler,
    InterfaceKind::IComponentHandler2,
    InterfaceKind::IConnectionPoint,
    InterfaceKind::IMessage,
    InterfaceKind::IAttributeList,
];

#[test]
fn inline_uid_orders_bytes_as_the_format_demands() {
    let uid = inline_uid(0x7A4D811C, 0x52114A1F, 0xAED9D2EE, 0x0B43BF9F);
    assert_eq!(
        uid,
        [
            0x1C, 0x81, 0x4D, 0x7A, 0x11, 0x52, 0x1F, 0x4A, 0xAE, 0xD9, 0xD2, 0xEE, 0x0B, 0x43,
            0xBF, 0x9F
        ]
    );
}

#[test]
fn inline_uid_of_numbered_bytes() {
    let uid = inline_uid(0xA3A2A1A0, 0xB3B2B1B0, 0xC3C2C1C0, 0xD3D2D1D0);
    assert_eq!(
        uid,
        [
            0xA0, 0xA1, 0xA2, 0xA3, 0xB2, 0xB3, 0xB0, 0xB1, 0xC3, 0xC2, 0xC1, 0xC0, 0xD3, 0xD2,
            0xD1, 0xD0
        ]
    );
}

#[test]
fn base_interface_identifier() {
    let uid = InterfaceKind::FUnknown.iid();
    assert_eq!(uid, [0, 0, 0, 0, 0, 0, 0, 0, 0xC0, 0, 0, 0, 0, 0, 0, 0x46]);
}

#[test]
fn uid_round_trip_on_words() {
    let cases: [(u32, u32, u32, u32); 5] = [
        (0, 0, 0, 0),
        (u32::MAX, u32::MAX, u32::MAX, u32::MAX),
        (1, 2, 3, 4),
        (0x80000000, 0x00000001, 0x7FFFFFFF, 0xFFFFFFFE),
        (0xE831FF31, 0xF2D54301, 0x928EBBEE, 0x25697802),
    ];
    for (a, b, c, d) in cases {
        assert_eq!(uid_words(&inline_uid(a, b, c, d)), (a, b, c, d));
    }
}

#[test]
fn uid_round_trip_on_bytes() {
    let mut uid = [0u8; 16];
    for (i, byte) in uid.iter_mut().enumerate() {
        *byte = (i as u8) * 17 + 3;
    }
    let (a, b, c, d) = uid_words(&uid);
    assert_eq!(inline_uid(a, b, c, d), uid);
}

#[test]
fn uid_eq_compares_every_byte() {
    let a = InterfaceKind::IComponent.iid();
    let mut b = a;
    assert!(uid_eq(&a, &b));
    b[15] ^= 1;
    assert!(!uid_eq(&a, &b));
    b[15] ^= 1;
    b[0] ^= 0x80;
    assert!(!uid_eq(&a, &b));
}

#[test]
fn uid_to_ascii_of_base_interface() {
    assert_eq!(
        uid_to_ascii(InterfaceKind::FUnknown.iid()),
        "00000000-0000-0000-C000-000000000046"
    );
}

#[test]
fn uid_to_ascii_groups_and_upper_case() {
    let uid = [
        0x1C, 0x81, 0x4D, 0x7A, 0x11, 0x52, 0x1F, 0x4A, 0xAE, 0xD9, 0xD2, 0xEE, 0x0B, 0x43, 0xBF,
        0x9F,
    ];
    let text = uid_to_ascii(uid);
    assert_eq!(text, "1C814D7A-1152-1F4A-AED9-D2EE0B43BF9F");
    assert_eq!(text.len(), 36);
}

#[test]
fn identifiers_are_distinct_and_found_again() {
    for (i, a) in ALL_KINDS.iter().enumerate() {
        assert_eq!(kind_of(&a.iid()), Some(*a));
        for (j, b) in ALL_KINDS.iter().enumerate() {
            assert_eq!(uid_eq(&a.iid(), &b.iid()), i == j);
        }
    }
    assert_eq!(kind_of(&[0x55; 16]), None);
}

#[test]
fn status_codes() {
    assert_eq!(TResult::ResultOk.code(), 0);
    assert_eq!(TResult::ResultFalse.code(), 1);
    assert_eq!(TResult::NoInterface.code(), 0x80004002);
    assert_eq!(TResult::InvalidArgument.code(), 0x80070057);
    assert_eq!(TResult::NotImplemented.code(), 0x80004001);
    assert_eq!(TResult::InternalError.code(), 0x80004005);
    assert_eq!(TResult::NotInitialized.code(), 0x8000FFFF);
    assert_eq!(TResult::OutOfMemory.code(), 0x8007000E);
}

#[test]
fn status_code_round_trip() {
    let all = [
        TResult::ResultOk,
        TResult::ResultFalse,
        TResult::NoInterface,
        TResult::InvalidArgument,
        TResult::NotImplemented,
        TResult::InternalError,
        TResult::NotInitialized,
        TResult::OutOfMemory,
    ];
    for status in all {
        assert_eq!(TResult::from_code(status.code()), Some(status));
        assert_eq!(status.is_ok(), status == TResult::ResultOk);
    }
    assert_eq!(TResult::from_code(2), None);
    assert_eq!(TResult::from_code(0x80004003), None);
    assert_eq!(TResult::NoInterface.name(), "NoInterface");
    assert_eq!(TResult::ResultOk.name(), "ResultOk");
}

#[test]
fn vtable_starts_with_the_three_base_methods() {
    for kind in ALL_KINDS {
        let slots = vtable_layout(kind);
        assert!(slots.len() >= 3);
        for i in 0..3u8 {
            assert_eq!(
                slots[i as usize],
                VtableSlot { interface: InterfaceKind::FUnknown, index: i }
            );
        }
    }
}

#[test]
fn vtable_of_child_extends_parent() {
    for kind in ALL_KINDS {
        if let Some(parent) = kind.parent() {
            let child = vtable_layout(kind);
            let base = vtable_layout(parent);
            assert_eq!(child.len(), base.len() + kind.own_methods() as usize);
            assert_eq!(&child[..base.len()], &base[..]);
            for (i, slot) in child[base.len()..].iter().enumerate() {
                assert_eq!(*slot, VtableSlot { interface: kind, index: i as u8 });
            }
        }
    }
}

#[test]
fn vtable_sizes() {
    assert_eq!(vtable_layout(InterfaceKind::FUnknown).len(), 3);
    assert_eq!(vtable_layout(InterfaceKind::IPluginFactory).len(), 7);
    assert_eq!(vtable_layout(InterfaceKind::IPluginBase).len(), 5);
    assert_eq!(vtable_layout(InterfaceKind::IComponent).len(), 14);
    assert_eq!(vtable_layout(InterfaceKind::IEditController).len(), 18);
    assert_eq!(vtable_layout(InterfaceKind::IPlugView).len(), 15);
    assert_eq!(vtable_layout(InterfaceKind::IPlugViewContentScaleSupport).len(), 16);
    assert_eq!(vtable_layout(InterfaceKind::IAudioProcessor).len(), 11);
    assert_eq!(vtable_layout(InterfaceKind::IAttributeList).len(), 11);
}

#[test]
fn extends_and_answers() {
    assert!(InterfaceKind::IComponent.extends(InterfaceKind::IPluginBase));
    assert!(InterfaceKind::IComponent.extends(InterfaceKind::FUnknown));
    assert!(InterfaceKind::IComponent.extends(InterfaceKind::IComponent));
    assert!(!InterfaceKind::IComponent.extends(InterfaceKind::IEditController));
    assert!(!InterfaceKind::FUnknown.extends(InterfaceKind::IComponent));
    assert!(InterfaceKind::IComponent.answers(&InterfaceKind::IPluginBase.iid()));
    assert!(InterfaceKind::IComponent.answers(&InterfaceKind::FUnknown.iid()));
    assert!(!InterfaceKind::IComponent.answers(&InterfaceKind::IAudioProcessor.iid()));
    assert!(!InterfaceKind::IPluginBase.answers(&InterfaceKind::IComponent.iid()));
}

#[test]
fn class_category() {
    let mut info = PClassInfo::default();
    assert_eq!(info.cardinality, 0);
    assert!(!info.is_audio_module());
    let text = b"Audio Module Class";
    info.category[..text.len()].copy_from_slice(text);
    assert!(info.is_audio_module());
    assert_eq!(info.category(), text.to_vec());
    info.category[text.len()] = b'!';
    assert!(!info.is_audio_module());
    info.category[text.len()] = 0;
    info.category[5] = 0;
    assert_eq!(info.category(), b"Audio".to_vec());
    assert!(!info.is_audio_module());
    let other = b"Component Controller Class";
    let mut controller = PClassInfo::default();
    controller.category[..other.len()].copy_from_slice(other);
    assert!(!controller.is_audio_module());
}

#[test]
fn c_string_stops_at_nul() {
    assert_eq!(c_string(b"abc\0def"), b"abc".to_vec());
    assert_eq!(c_string(b"abc"), b"abc".to_vec());
    assert_eq!(c_string(b"\0abc"), Vec::<u8>::new());
    assert_eq!(c_string(b""), Vec::<u8>::new());
}

#[test]
fn factory_info_defaults_and_flags() {
    let info = PFactoryInfo::default();
    assert_eq!(info.flags, FactoryFlags::NoFlags);
    assert!(info.vendor.iter().all(|b| *b == 0));
    assert_eq!(FactoryFlags::NoFlags.bits(), 0);
    assert_eq!(FactoryFlags::ClassesDiscardable.bits(), 1);
    assert_eq!(FactoryFlags::LicenseCheck.bits(), 2);
    assert_eq!(FactoryFlags::ComponentNonDiscardable.bits(), 8);
    assert_eq!(FactoryFlags::Unicode.bits(), 16);
}

#[test]
fn slot_places() {
    assert_eq!(slot_index(InterfaceKind::IComponent, InterfaceKind::FUnknown, 0), Some(0));
    assert_eq!(slot_index(InterfaceKind::IComponent, InterfaceKind::FUnknown, 2), Some(2));
    assert_eq!(slot_index(InterfaceKind::IComponent, InterfaceKind::IPluginBase, 0), Some(3));
    assert_eq!(slot_index(InterfaceKind::IComponent, InterfaceKind::IPluginBase, 1), Some(4));
    assert_eq!(slot_index(InterfaceKind::IComponent, InterfaceKind::IComponent, 0), Some(5));
    assert_eq!(slot_index(InterfaceKind::IComponent, InterfaceKind::IComponent, 8), Some(13));
    assert_eq!(slot_index(InterfaceKind::IComponent, InterfaceKind::IComponent, 9), None);
    assert_eq!(slot_index(InterfaceKind::IComponent, InterfaceKind::IEditController, 0), None);
    assert_eq!(slot_index(InterfaceKind::IAudioProcessor, InterfaceKind::IAudioProcessor, 6), Some(9));
    assert_eq!(slot_index(InterfaceKind::IPlugView, InterfaceKind::IPlugView, 11), Some(14));
    assert_eq!(slot_index(InterfaceKind::FUnknown, InterfaceKind::FUnknown, 3), None);
}

#[test]
fn method_names_in_order_of_declaration() {
    assert_eq!(InterfaceKind::FUnknown.method_name(0), Some("query_interface"));
    assert_eq!(InterfaceKind::FUnknown.method_name(1), Some("add_ref"));
    assert_eq!(InterfaceKind::FUnknown.method_name(2), Some("release"));
    assert_eq!(InterfaceKind::FUnknown.method_name(3), None);
    assert_eq!(InterfaceKind::IComponent.method_name(5), Some("activate_bus"));
    assert_eq!(InterfaceKind::IComponent.method_name(6), Some("set_active"));
    assert_eq!(InterfaceKind::IAudioProcessor.method_name(6), Some("process"));
    assert_eq!(InterfaceKind::IEditController.method_name(12), Some("create_view"));
    assert_eq!(InterfaceKind::IPlugView.method_name(11), Some("check_size_constraint"));
    assert_eq!(InterfaceKind::IPlugFrame.method_name(0), Some("resize_view"));
    for kind in ALL_KINDS {
        for index in 0..=255u8 {
            assert_eq!(kind.method_name(index).is_some(), index < kind.own_methods());
        }
        let names: Vec<&str> = vtable_layout(kind)
            .iter()
            .map(|slot| voxea::interface::slot_name(*slot).unwrap())
            .collect();
        assert_eq!(&names[..3], ["query_interface", "add_ref", "release"]);
    }
    let names: Vec<&str> = vtable_layout(InterfaceKind::IPluginBase)
        .iter()
        .map(|slot| voxea::interface::slot_name(*slot).unwrap())
        .collect();
    assert_eq!(names, ["query_interface", "add_ref", "release", "initialize", "terminate"]);
}
