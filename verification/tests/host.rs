use voxea::attributes::{units_of, HostApplicationList};
use voxea::editor::{PlatformType, PlugView, PluginCommand, ViewAction, ViewRect};
use voxea::host::{
    string128, HostComponentHandler, HostMessage, HostObject, HostPlugFrame, QueryAnswer,
    VSTHostApplication,
};
use voxea::interface::{vtable_layout, InterfaceKind, VtableSlot};
use voxea::lifecycle::{Request, Response, VSTHostContext};
use voxea::perf::{begin, count_alloc, dealloc, end, get, init, region, PerfTrace};
use voxea::status::TResult;

fn constructed() -> VSTHostContext {
    let mut context = VSTHostContext::new();
    let mut request = context.request();
    while request != Request::Ready {
        let response = match request {
            Request::LoadModule => Response::Module(Ok(())),
            Request::CountClasses | Request::GetBusCount(_) => Response::Count(1),
            Request::GetClassInfo(_) => {
                let mut info = voxea::interface::PClassInfo::default();
                info.category[..18].copy_from_slice(b"Audio Module Class");
                Response::ClassInfo { status: TResult::ResultOk, info }
            }
            Request::GetControllerClassId => {
                Response::ClassId { status: TResult::ResultOk, cid: [1; 16] }
            }
            Request::GetFactory
            | Request::CreateInstance { .. }
            | Request::QueryInterface { .. }
            | Request::CreateView => {
                Response::Pointer { status: TResult::ResultOk, address: 0x7000 }
            }
            _ => Response::Status(TResult::ResultOk),
        };
        request = context.step(response);
    }
    context
}

#[test]
fn cross_query() {
    let handler = HostComponentHandler::new();
    let answer = handler.query_interface(&InterfaceKind::IHostApplication.iid());
    assert_eq!(answer, QueryAnswer::HostApplication);
    assert_eq!(answer.status(), TResult::ResultOk);
    let host = VSTHostApplication::new();
    let (status, name) = host.get_name();
    assert_eq!(status, TResult::ResultOk);
    let ascii = b"Voxea";
    for (i, unit) in name.iter().enumerate() {
        if i < ascii.len() {
            assert_eq!(*unit, ascii[i] as u16);
        } else {
            assert_eq!(*unit, 0);
        }
    }
    assert_eq!(String::from_utf16(&name[..5]).unwrap(), "Voxea");
}

#[test]
fn queries_of_host_objects() {
    let host = VSTHostApplication::new();
    assert_eq!(host.query_interface(&InterfaceKind::IHostApplication.iid()), QueryAnswer::This);
    assert_eq!(host.query_interface(&InterfaceKind::FUnknown.iid()), QueryAnswer::This);
    assert_eq!(
        host.query_interface(&InterfaceKind::IComponentHandler.iid()),
        QueryAnswer::NoInterface
    );
    assert_eq!(host.query_interface(&[0xAB; 16]), QueryAnswer::NoInterface);
    assert_eq!(QueryAnswer::NoInterface.status(), TResult::NoInterface);
    assert_eq!(QueryAnswer::This.status(), TResult::ResultOk);

    let handler = HostComponentHandler::new();
    assert_eq!(handler.query_interface(&InterfaceKind::IComponentHandler.iid()), QueryAnswer::This);
    assert_eq!(
        handler.query_interface(&InterfaceKind::IComponentHandler2.iid()),
        QueryAnswer::This
    );
    assert_eq!(handler.query_interface(&InterfaceKind::FUnknown.iid()), QueryAnswer::This);
    assert_eq!(handler.query_interface(&InterfaceKind::IMessage.iid()), QueryAnswer::NoInterface);

    let frame = HostPlugFrame::new();
    assert_eq!(frame.query_interface(&InterfaceKind::IPlugFrame.iid()), QueryAnswer::This);
    assert_eq!(frame.query_interface(&InterfaceKind::FUnknown.iid()), QueryAnswer::This);
    assert_eq!(
        frame.query_interface(&InterfaceKind::IHostApplication.iid()),
        QueryAnswer::NoInterface
    );
    let mut message = HostMessage::new();
    assert_eq!(message.query_interface(&InterfaceKind::IMessage.iid()), QueryAnswer::This);
    assert_eq!(
        message.query_interface(&InterfaceKind::IAttributeList.iid()),
        QueryAnswer::NoInterface
    );
    assert_eq!(message.release(), 1);
    assert_eq!(message.release(), 0);
    assert_eq!(
        HostObject::AttributeList.query_interface(&InterfaceKind::IAttributeList.iid()),
        QueryAnswer::This
    );
    assert_eq!(
        HostObject::ParameterChanges.query_interface(&InterfaceKind::IParameterChanges.iid()),
        QueryAnswer::This
    );
    assert_eq!(HostObject::PlugFrame.interface(), InterfaceKind::IPlugFrame);
}

#[test]
fn vtables_of_host_objects() {
    assert_eq!(
        VSTHostApplication::new().vtable().to_vec(),
        vtable_layout(InterfaceKind::IHostApplication)
    );
    assert_eq!(HostPlugFrame::new().vtable().to_vec(), vtable_layout(InterfaceKind::IPlugFrame));
    assert_eq!(HostMessage::new().vtable().to_vec(), vtable_layout(InterfaceKind::IMessage));
    assert_eq!(
        HostApplicationList::new().vtable().to_vec(),
        vtable_layout(InterfaceKind::IAttributeList)
    );
    let handler = HostComponentHandler::new();
    let slots = handler.vtable();
    assert_eq!(slots.len(), 11);
    assert_eq!(slots[..7].to_vec(), vtable_layout(InterfaceKind::IComponentHandler));
    for i in 0..4u8 {
        assert_eq!(
            slots[7 + i as usize],
            VtableSlot { interface: InterfaceKind::IComponentHandler2, index: i }
        );
    }
}

#[test]
fn handler_acknowledges_but_does_not_restart() {
    let handler = HostComponentHandler::new();
    assert_eq!(handler.begin_edit(1), TResult::ResultOk);
    assert_eq!(handler.perform_edit(1, 77), TResult::ResultOk);
    assert_eq!(handler.end_edit(1), TResult::ResultOk);
    assert_eq!(handler.restart_component(3), TResult::NoInterface);
    assert_eq!(handler.set_dirty(true), TResult::ResultOk);
    assert_eq!(handler.request_open_editor(b"editor"), TResult::ResultOk);
    assert_eq!(handler.start_group_edit(), TResult::ResultOk);
    assert_eq!(handler.finish_group_edit(), TResult::ResultOk);
}

#[test]
fn host_application_creates_messages() {
    let host = VSTHostApplication::new();
    let (status, message) = host.create_instance(&[0; 16], &InterfaceKind::IMessage.iid());
    assert_eq!(status, TResult::ResultOk);
    let mut message = message.unwrap();
    assert_eq!(message.get_message_id(), 0);
    message.set_message_id(0x1234);
    assert_eq!(message.get_message_id(), 0x1234);
    assert_eq!(message.get_attributes().set_int("count", 3), TResult::ResultOk);
    let mut value = 0i64;
    message.attributes().get_int("count", &mut value);
    assert_eq!(value, 3);
    assert_eq!(message.get_message_id(), 0x1234);
    let (status, nothing) = host.create_instance(&[0; 16], &InterfaceKind::IAttributeList.iid());
    assert_eq!(status, TResult::ResultOk);
    assert!(nothing.is_none());
}

#[test]
fn attribute_list_keeps_values_by_key_and_kind() {
    let mut list = HostApplicationList::new();
    let mut int = -1i64;
    let mut float = 7u64;
    assert_eq!(list.get_int("missing", &mut int), TResult::ResultOk);
    assert_eq!(int, -1);
    assert_eq!(list.set_int("a", 42), TResult::ResultOk);
    assert_eq!(list.set_float("b", 1.5f64.to_bits()), TResult::ResultOk);
    assert_eq!(list.get_int("a", &mut int), TResult::ResultOk);
    assert_eq!(int, 42);
    assert_eq!(list.get_float("b", &mut float), TResult::ResultOk);
    assert_eq!(f64::from_bits(float), 1.5);
    int = 5;
    list.get_int("b", &mut int);
    assert_eq!(int, 5);
    float = 9;
    list.get_float("a", &mut float);
    assert_eq!(float, 9);
    list.set_int("a", -7);
    list.get_int("a", &mut int);
    assert_eq!(int, -7);
    list.set_float("a", 2.0f64.to_bits());
    int = 11;
    list.get_int("a", &mut int);
    assert_eq!(int, 11);
    list.get_float("a", &mut float);
    assert_eq!(f64::from_bits(float), 2.0);
    list.get_float("b", &mut float);
    assert_eq!(f64::from_bits(float), 1.5);
    list.get_int("", &mut int);
    assert_eq!(int, 11);
}

#[test]
fn attribute_list_strings_and_binary() {
    let mut list = HostApplicationList::new();
    let text: Vec<u16> = "hello".encode_utf16().chain([0, 0x41]).collect();
    assert_eq!(list.set_string("s", &text), TResult::ResultOk);
    let mut out = [0xFFFFu16; 8];
    assert_eq!(list.get_string("s", &mut out, 16), TResult::ResultOk);
    assert_eq!(out, [0x68, 0x65, 0x6C, 0x6C, 0x6F, 0, 0xFFFF, 0xFFFF]);
    let mut short = [0xFFFFu16; 8];
    list.get_string("s", &mut short, 6);
    assert_eq!(short, [0x68, 0x65, 0x6C, 0xFFFF, 0xFFFF, 0xFFFF, 0xFFFF, 0xFFFF]);
    let mut tiny = [0xFFFFu16; 2];
    list.get_string("s", &mut tiny, 100);
    assert_eq!(tiny, [0x68, 0x65]);
    let mut untouched = [1u16; 4];
    list.get_string("other", &mut untouched, 8);
    assert_eq!(untouched, [1; 4]);
    list.get_string("s", &mut untouched, 1);
    assert_eq!(untouched, [1; 4]);

    let mut data = 1usize;
    let mut size = 2u32;
    assert_eq!(list.get_binary("blob", &mut data, &mut size), TResult::ResultOk);
    assert_eq!((data, size), (1, 2));
    assert_eq!(list.set_binary("blob", 0xBEEF, 64), TResult::ResultOk);
    list.get_binary("blob", &mut data, &mut size);
    assert_eq!((data, size), (0xBEEF, 64));
    list.get_binary("s", &mut data, &mut size);
    assert_eq!((data, size), (0xBEEF, 64));
    assert_eq!(units_of(&[1, 2, 0, 3]), vec![1, 2]);
    assert_eq!(units_of(&[1, 2]), vec![1, 2]);
    assert_eq!(units_of(&[]), Vec::<u16>::new());
}

#[test]
fn string128_pads_and_cuts() {
    let units = string128(b"Hi");
    assert_eq!(units[0], 0x48);
    assert_eq!(units[1], 0x69);
    assert!(units[2..].iter().all(|u| *u == 0));
    let long = [b'x'; 200];
    let units = string128(&long);
    assert!(units[..127].iter().all(|u| *u == b'x' as u16));
    assert_eq!(units[127], 0);
    assert!(string128(b"").iter().all(|u| *u == 0));
}

#[test]
fn plug_frame_passes_the_size_on() {
    let frame = HostPlugFrame::new();
    let rect = ViewRect { left: 10, top: 20, right: 810, bottom: 620 };
    assert_eq!(frame.resize_view(0x7000, rect), (TResult::ResultOk, (800, 600)));
    let inverted = ViewRect { left: 10, top: 20, right: 5, bottom: 20 };
    assert_eq!(frame.resize_view(0x7000, inverted), (TResult::ResultOk, (0, 0)));
    let wide = ViewRect { left: i32::MIN, top: i32::MIN, right: i32::MAX, bottom: 0 };
    assert_eq!(wide.extents(), (u32::MAX, 0x8000_0000));
}

#[test]
fn resize_round_trip() {
    let mut plugin = constructed();
    assert!(plugin.view_attached(TResult::ResultOk));
    let mut window = PlugView::new();
    let action = window.on_resized(&plugin, 500, 500);
    assert_eq!(
        action,
        ViewAction::CheckSizeConstraint {
            view: 0x7000,
            rect: ViewRect { left: 0, top: 0, right: 500, bottom: 500 },
        }
    );
    let constrained = ViewRect { left: 0, top: 0, right: 1024, bottom: 768 };
    assert_eq!(
        window.on_size_constraint(constrained),
        ViewAction::RequestInnerSize { width: 1024, height: 768 }
    );
    assert_eq!(window.pending, None);
    assert_eq!(window.on_size_constraint(constrained), ViewAction::Nothing);
    window.on_resized(&plugin, 1024, 768);
    assert_eq!(window.on_size_constraint(constrained), ViewAction::Nothing);
}

#[test]
fn window_of_a_view() {
    let mut plugin = constructed();
    let mut window = PlugView::new();
    assert!(!window.tx);
    assert_eq!(
        window.on_open(&plugin, PlatformType::HWND),
        ViewAction::Attach { view: 0x7000, platform: PlatformType::HWND }
    );
    assert_eq!(window.on_resized(&plugin, 10, 10), ViewAction::Nothing);
    assert_eq!(window.on_close(&plugin), ViewAction::Nothing);
    plugin.view_attached(TResult::ResultOk);
    assert_eq!(window.on_open(&plugin, PlatformType::HWND), ViewAction::Nothing);
    assert_eq!(
        window.on_close(&plugin),
        ViewAction::Remove { view: 0x7000, command: PluginCommand::CloseWindow }
    );
    assert!(plugin.view_removed());
    assert_eq!(window.on_close(&plugin), ViewAction::Nothing);
    let fresh = VSTHostContext::new();
    assert_eq!(window.on_open(&fresh, PlatformType::NSView), ViewAction::Nothing);
    assert_eq!(PlatformType::HWND.name(), b"HWND\0".to_vec());
    assert_eq!(PlatformType::HIView.name(), b"HIView\0".to_vec());
    assert_eq!(PlatformType::NSView.name(), b"NSView\0".to_vec());
    assert_eq!(PlatformType::UIView.name(), b"UIView\0".to_vec());
    assert_eq!(
        ViewRect::of_size(u32::MAX, 3),
        ViewRect { left: 0, top: 0, right: i32::MAX, bottom: 3 }
    );
    assert_eq!(ViewRect::default(), ViewRect { left: 0, top: 0, right: 0, bottom: 0 });
}

#[test]
fn perf_regions_nest() {
    let mut registry = init();
    assert_eq!(region(&registry), None);
    count_alloc(&mut registry, 10);
    assert!(get(&registry, "main").is_none());
    begin(&mut registry, "main", 100);
    assert_eq!(region(&registry), Some("main"));
    count_alloc(&mut registry, 10);
    count_alloc(&mut registry, 5);
    dealloc(&mut registry, 4);
    let trace = PerfTrace::new(&mut registry, "inner", 150);
    assert_eq!(region(&registry), Some("inner"));
    count_alloc(&mut registry, 100);
    assert!(!end(&mut registry, "main", 160));
    assert_eq!(region(&registry), Some("inner"));
    assert!(trace.finish(&mut registry, 170));
    assert_eq!(region(&registry), Some("main"));
    assert!(end(&mut registry, "main", 400));
    assert_eq!(region(&registry), None);
    assert!(!end(&mut registry, "main", 500));
    let main = get(&registry, "main").unwrap();
    assert_eq!(main.memory.allocated, 15);
    assert_eq!(main.memory.freed, 4);
    assert_eq!(main.memory.peak_usage, 15);
    assert_eq!(main.timer.last_elapsed, 300);
    assert_eq!(main.timer.instant, 400);
    let inner = get(&registry, "inner").unwrap();
    assert_eq!(inner.memory.allocated, 100);
    assert_eq!(inner.timer.last_elapsed, 20);
    begin(&mut registry, "main", 1000);
    let again = get(&registry, "main").unwrap();
    assert_eq!(again.memory.allocated, 0);
    assert_eq!(again.memory.freed, 0);
    assert_eq!(again.memory.peak_usage, 15);
    assert_eq!(again.timer.last_elapsed, 300);
    assert_eq!(again.timer.instant, 1000);
    count_alloc(&mut registry, usize::MAX);
    count_alloc(&mut registry, 1);
    assert_eq!(get(&registry, "main").unwrap().memory.allocated, usize::MAX);
    assert_eq!(get(&registry, "main").unwrap().memory.peak_usage, usize::MAX);
    assert!(end(&mut registry, "main", 900));
    assert_eq!(get(&registry, "main").unwrap().timer.last_elapsed, 0);
    assert_eq!(registry.regions.len(), 2);
}

#[test]
fn host_objects_report_one_reference() {
    for object in [
        HostObject::HostApplication,
        HostObject::ComponentHandler,
        HostObject::PlugFrame,
        HostObject::Message,
        HostObject::AttributeList,
        HostObject::ParameterChanges,
    ] {
        assert_eq!(object.add_ref(), 1);
        assert_eq!(object.release(), 1);
        assert_eq!(object.query_interface(&InterfaceKind::FUnknown.iid()), QueryAnswer::This);
    }
}

#[test]
fn messages_count_their_references() {
    let mut message = HostMessage::new();
    assert_eq!(message.add_ref(), 2);
    assert_eq!(message.add_ref(), 3);
    assert_eq!(message.release(), 2);
    assert_eq!(message.release(), 1);
    message.set_message_id(9);
    assert_eq!(message.release(), 0);
    assert_eq!(message.release(), 0);
    assert_eq!(message.get_message_id(), 9);
    assert!(!HostObject::Message.pinned());
    assert!(HostObject::HostApplication.pinned());
    assert!(HostObject::ComponentHandler.pinned());
    assert!(HostObject::AttributeList.pinned());
}

#[test]
fn query_hands_back_status_and_address() {
    let host_iid = InterfaceKind::IHostApplication.iid();
    assert_eq!(
        HostObject::ComponentHandler.query_pointer(&host_iid, 0x10, 0x20),
        (TResult::ResultOk, 0x20)
    );
    assert_eq!(
        HostObject::ComponentHandler.query_pointer(&host_iid, 0x10, 0),
        (TResult::NoInterface, 0)
    );
    assert_eq!(
        HostObject::ComponentHandler.query_pointer(&InterfaceKind::FUnknown.iid(), 0x10, 0x20),
        (TResult::ResultOk, 0x10)
    );
    assert_eq!(
        HostObject::PlugFrame.query_pointer(&host_iid, 0x10, 0x20),
        (TResult::NoInterface, 0)
    );
    assert_eq!(TResult::of_code(0), TResult::ResultOk);
    assert_eq!(TResult::of_code(0x80004002), TResult::NoInterface);
    assert_eq!(TResult::of_code(77), TResult::InternalError);
}
