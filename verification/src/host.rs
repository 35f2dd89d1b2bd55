//! The objects that the host implements for plugins to call: what each
//! answers to a query for an interface, and what each of its methods
//! returns.

use crate::attributes::{HostApplicationList, ParamValueModel};
use crate::editor::ViewRect;
use crate::interface::{
    lemma_layout_of_unknown_child, own_slot, spec_vtable_layout, unknown_slot, InterfaceKind,
    VtableSlot,
};
use crate::status::TResult;
use crate::uid::{uid_eq, FUID};
use vstd::prelude::*;

verus! {

/// The kinds of object that the host implements.
#[derive(Debug, Clone, Copy, PartialEq, Eq, Structural)]
pub enum HostObject {
    HostApplication,
    ComponentHandler,
    PlugFrame,
    Message,
    AttributeList,
    ParameterChanges,
}

/// The object that a query is answered with. A query that is answered
/// hands out a new reference to that object.
#[derive(Debug, Clone, Copy, PartialEq, Eq, Structural)]
pub enum QueryAnswer {
    /// The object that was queried, seen as the interface asked for.
    This,
    /// The host application object that goes with the object.
    HostApplication,
    /// None: the object does not support the interface.
    NoInterface,
}

impl QueryAnswer {
    pub open spec fn spec_status(self) -> TResult {
        match self {
            QueryAnswer::NoInterface => TResult::NoInterface,
            _ => TResult::ResultOk,
        }
    }

    /// The status that the query returns.
    pub fn status(self) -> (status: TResult)
        ensures
            status == self.spec_status(),
    {
        match self {
            QueryAnswer::NoInterface => TResult::NoInterface,
            _ => TResult::ResultOk,
        }
    }
}

impl HostObject {
    /// The interface that an object of this kind implements first; its
    /// function table starts with the table of that interface.
    pub open spec fn spec_interface(self) -> InterfaceKind {
        match self {
            HostObject::HostApplication => InterfaceKind::IHostApplication,
            HostObject::ComponentHandler => InterfaceKind::IComponentHandler,
            HostObject::PlugFrame => InterfaceKind::IPlugFrame,
            HostObject::Message => InterfaceKind::IMessage,
            HostObject::AttributeList => InterfaceKind::IAttributeList,
            HostObject::ParameterChanges => InterfaceKind::IParameterChanges,
        }
    }

    /// Whether an object of this kind supports the interface of an
    /// identifier itself: the identifier names the interface that it
    /// implements, or one that this extends down to the base interface. The
    /// component handler supports its second interface too.
    pub open spec fn spec_supports(self, iid: Seq<u8>) -> bool {
        self.spec_interface().spec_answers(iid) || (self == HostObject::ComponentHandler
            && InterfaceKind::IComponentHandler2.spec_answers(iid))
    }

    /// What a query of an object of this kind for an identifier is answered
    /// with. The component handler answers a query for the host application
    /// with the host application object that goes with it.
    pub open spec fn spec_query(self, iid: Seq<u8>) -> QueryAnswer {
        if self.spec_supports(iid) {
            QueryAnswer::This
        } else if self == HostObject::ComponentHandler
            && iid == InterfaceKind::IHostApplication.spec_iid() {
            QueryAnswer::HostApplication
        } else {
            QueryAnswer::NoInterface
        }
    }

    pub fn interface(self) -> (kind: InterfaceKind)
        ensures
            kind == self.spec_interface(),
    {
        match self {
            HostObject::HostApplication => InterfaceKind::IHostApplication,
            HostObject::ComponentHandler => InterfaceKind::IComponentHandler,
            HostObject::PlugFrame => InterfaceKind::IPlugFrame,
            HostObject::Message => InterfaceKind::IMessage,
            HostObject::AttributeList => InterfaceKind::IAttributeList,
            HostObject::ParameterChanges => InterfaceKind::IParameterChanges,
        }
    }

    /// Whether the objects of this kind live as long as the plugin instance
    /// that they serve, whatever references are taken on them. A message
    /// does not: it is made for a plugin, counts its references, and is
    /// destroyed when the last is given back.
    pub open spec fn spec_pinned(self) -> bool {
        self != HostObject::Message
    }

    pub fn pinned(self) -> (yes: bool)
        ensures
            yes == self.spec_pinned(),
    {
        match self {
            HostObject::Message => false,
            _ => true,
        }
    }

    /// Takes a reference on a pinned object, and returns the count that it
    /// reports: pinned objects report one.
    pub fn add_ref(self) -> (count: u32)
        ensures
            count == 1,
    {
        1
    }

    /// Gives back a reference on a pinned object, and returns the count
    /// that it reports: one, as for `add_ref`.
    pub fn release(self) -> (count: u32)
        ensures
            count == 1,
    {
        1
    }

    /// What a query hands back to the plugin: the status, and the address
    /// of the object that answers, or a null address. `this` is the address
    /// of the object that was queried, `host_application` the address of
    /// the host application object that goes with it, zero if none does;
    /// an answer that would be a null address is no interface.
    pub open spec fn spec_query_pointer(
        self,
        iid: Seq<u8>,
        this: usize,
        host_application: usize,
    ) -> (TResult, usize) {
        let address = match self.spec_query(iid) {
            QueryAnswer::This => this,
            QueryAnswer::HostApplication => host_application,
            QueryAnswer::NoInterface => 0,
        };
        if address == 0 {
            (TResult::NoInterface, 0)
        } else {
            (TResult::ResultOk, address)
        }
    }

    pub fn query_pointer(self, iid: &FUID, this: usize, host_application: usize) -> (result: (
        TResult,
        usize,
    ))
        ensures
            result == self.spec_query_pointer(iid@, this, host_application),
    {
        let address = match self.query_interface(iid) {
            QueryAnswer::This => this,
            QueryAnswer::HostApplication => host_application,
            QueryAnswer::NoInterface => 0,
        };
        if address == 0 {
            (TResult::NoInterface, 0)
        } else {
            (TResult::ResultOk, address)
        }
    }

    /// Answers a query for an interface.
    pub fn query_interface(self, iid: &FUID) -> (answer: QueryAnswer)
        ensures
            answer == self.spec_query(iid@),
    {
        if self.interface().answers(iid) {
            return QueryAnswer::This;
        }
        match self {
            HostObject::ComponentHandler => {
                if InterfaceKind::IComponentHandler2.answers(iid) {
                    QueryAnswer::This
                } else if uid_eq(&InterfaceKind::IHostApplication.iid(), iid) {
                    QueryAnswer::HostApplication
                } else {
                    QueryAnswer::NoInterface
                }
            },
            _ => QueryAnswer::NoInterface,
        }
    }
}

/// The name that the host gives itself, in ASCII.
pub open spec fn spec_host_name() -> Seq<u8> {
    seq![0x56u8, 0x6F, 0x78, 0x65, 0x61]
}

/// A text of ASCII characters as UTF-16 in a buffer of 128 units: unit for
/// character, then NUL to the end. The text is cut off so that a NUL stays.
pub open spec fn spec_string128(ascii: Seq<u8>) -> Seq<u16> {
    Seq::new(
        128,
        |i: int|
            if i < ascii.len() && i < 127 {
                ascii[i] as u16
            } else {
                0u16
            },
    )
}

/// Writes a text of ASCII characters as UTF-16 into a buffer of 128 units.
pub fn string128(ascii: &[u8]) -> (units: [u16; 128])
    ensures
        units@ == spec_string128(ascii@),
{
    let mut units: [u16; 128] = [0u16; 128];
    let mut i: usize = 0;
    while i < ascii.len() && i < 127
        invariant
            i <= 127,
            i <= ascii@.len(),
            forall|j: int| 0 <= j < i ==> units@[j] == ascii@[j] as u16,
            forall|j: int| i <= j < 128 ==> units@[j] == 0,
        decreases 127 - i,
    {
        units[i] = ascii[i] as u16;
        i += 1;
    }
    assert(units@ =~= spec_string128(ascii@));
    units
}

/// The host application object.
#[derive(Debug, Clone, Copy)]
pub struct VSTHostApplication {
    vtable: [VtableSlot; 5],
}

impl VSTHostApplication {
    pub closed spec fn spec_vtable(self) -> Seq<VtableSlot> {
        self.vtable@
    }

    pub fn new() -> (host: VSTHostApplication)
        ensures
            host.spec_vtable() == spec_vtable_layout(InterfaceKind::IHostApplication),
    {
        let host = VSTHostApplication {
            vtable: [
                unknown_slot(0),
                unknown_slot(1),
                unknown_slot(2),
                own_slot(InterfaceKind::IHostApplication, 0),
                own_slot(InterfaceKind::IHostApplication, 1),
            ],
        };
        proof {
            lemma_layout_of_unknown_child(InterfaceKind::IHostApplication);
            assert(host.vtable@ =~= spec_vtable_layout(InterfaceKind::IHostApplication));
        }
        host
    }

    /// The function table of the object, slot by slot.
    pub fn vtable(&self) -> (slots: &[VtableSlot; 5])
        ensures
            slots@ == self.spec_vtable(),
    {
        &self.vtable
    }

    pub fn query_interface(&self, iid: &FUID) -> (answer: QueryAnswer)
        ensures
            answer == HostObject::HostApplication.spec_query(iid@),
    {
        HostObject::HostApplication.query_interface(iid)
    }

    /// The name of the host: "Voxea" as UTF-16, NUL-terminated.
    pub fn get_name(&self) -> (result: (TResult, [u16; 128]))
        ensures
            result.0 == TResult::ResultOk,
            result.1@ == spec_string128(spec_host_name()),
    {
        let name: [u8; 5] = [0x56, 0x6F, 0x78, 0x65, 0x61];
        assert(name@ =~= spec_host_name());
        (TResult::ResultOk, string128(name.as_slice()))
    }

    /// Makes an instance for a plugin: a new message where the interface
    /// asked for is the message interface, else nothing. The status is ok
    /// either way.
    pub fn create_instance(&self, cid: &FUID, iid: &FUID) -> (result: (
        TResult,
        Option<HostMessage>,
    ))
        ensures
            result.0 == TResult::ResultOk,
            result.1 is Some == (iid@ == InterfaceKind::IMessage.spec_iid()),
            result.1 matches Some(message) ==> message.spec_is_new(),
    {
        if uid_eq(iid, &InterfaceKind::IMessage.iid()) {
            (TResult::ResultOk, Some(HostMessage::new()))
        } else {
            (TResult::ResultOk, None)
        }
    }
}

/// The component handler object. Its function table holds the methods of
/// both handler interfaces.
#[derive(Debug, Clone, Copy)]
pub struct HostComponentHandler {
    vtable: [VtableSlot; 11],
}

/// The function table of the component handler: the table of the first
/// handler interface, then the methods of the second.
pub open spec fn spec_handler_vtable() -> Seq<VtableSlot> {
    spec_vtable_layout(InterfaceKind::IComponentHandler) + Seq::new(
        4,
        |i: int| VtableSlot { interface: InterfaceKind::IComponentHandler2, index: i as u8 },
    )
}

impl HostComponentHandler {
    pub closed spec fn spec_vtable(self) -> Seq<VtableSlot> {
        self.vtable@
    }

    pub fn new() -> (handler: HostComponentHandler)
        ensures
            handler.spec_vtable() == spec_handler_vtable(),
    {
        let handler = HostComponentHandler {
            vtable: [
                unknown_slot(0),
                unknown_slot(1),
                unknown_slot(2),
                own_slot(InterfaceKind::IComponentHandler, 0),
                own_slot(InterfaceKind::IComponentHandler, 1),
                own_slot(InterfaceKind::IComponentHandler, 2),
                own_slot(InterfaceKind::IComponentHandler, 3),
                own_slot(InterfaceKind::IComponentHandler2, 0),
                own_slot(InterfaceKind::IComponentHandler2, 1),
                own_slot(InterfaceKind::IComponentHandler2, 2),
                own_slot(InterfaceKind::IComponentHandler2, 3),
            ],
        };
        proof {
            lemma_layout_of_unknown_child(InterfaceKind::IComponentHandler);
            assert(handler.vtable@ =~= spec_handler_vtable());
        }
        handler
    }

    /// The function table of the object, slot by slot.
    pub fn vtable(&self) -> (slots: &[VtableSlot; 11])
        ensures
            slots@ == self.spec_vtable(),
    {
        &self.vtable
    }

    pub fn query_interface(&self, iid: &FUID) -> (answer: QueryAnswer)
        ensures
            answer == HostObject::ComponentHandler.spec_query(iid@),
    {
        HostObject::ComponentHandler.query_interface(iid)
    }

    /// A parameter is about to be edited: acknowledged.
    pub fn begin_edit(&self, id: u32) -> (status: TResult)
        ensures
            status == TResult::ResultOk,
    {
        TResult::ResultOk
    }

    /// A parameter was edited: acknowledged.
    pub fn perform_edit(&self, id: u32, value: u32) -> (status: TResult)
        ensures
            status == TResult::ResultOk,
    {
        TResult::ResultOk
    }

    /// The edit of a parameter is over: acknowledged.
    pub fn end_edit(&self, id: u32) -> (status: TResult)
        ensures
            status == TResult::ResultOk,
    {
        TResult::ResultOk
    }

    /// The plugin asks to be restarted: not supported.
    pub fn restart_component(&self, flags: i32) -> (status: TResult)
        ensures
            status == TResult::NoInterface,
    {
        TResult::NoInterface
    }

    pub fn set_dirty(&self, state: bool) -> (status: TResult)
        ensures
            status == TResult::ResultOk,
    {
        TResult::ResultOk
    }

    pub fn request_open_editor(&self, name: &[u8]) -> (status: TResult)
        ensures
            status == TResult::ResultOk,
    {
        TResult::ResultOk
    }

    pub fn start_group_edit(&self) -> (status: TResult)
        ensures
            status == TResult::ResultOk,
    {
        TResult::ResultOk
    }

    pub fn finish_group_edit(&self) -> (status: TResult)
        ensures
            status == TResult::ResultOk,
    {
        TResult::ResultOk
    }
}

/// The plug frame object, through which a view asks for another size.
#[derive(Debug, Clone, Copy)]
pub struct HostPlugFrame {
    vtable: [VtableSlot; 4],
}

impl HostPlugFrame {
    pub closed spec fn spec_vtable(self) -> Seq<VtableSlot> {
        self.vtable@
    }

    pub fn new() -> (frame: HostPlugFrame)
        ensures
            frame.spec_vtable() == spec_vtable_layout(InterfaceKind::IPlugFrame),
    {
        let frame = HostPlugFrame {
            vtable: [
                unknown_slot(0),
                unknown_slot(1),
                unknown_slot(2),
                own_slot(InterfaceKind::IPlugFrame, 0),
            ],
        };
        proof {
            lemma_layout_of_unknown_child(InterfaceKind::IPlugFrame);
            assert(frame.vtable@ =~= spec_vtable_layout(InterfaceKind::IPlugFrame));
        }
        frame
    }

    /// The function table of the object, slot by slot.
    pub fn vtable(&self) -> (slots: &[VtableSlot; 4])
        ensures
            slots@ == self.spec_vtable(),
    {
        &self.vtable
    }

    pub fn query_interface(&self, iid: &FUID) -> (answer: QueryAnswer)
        ensures
            answer == HostObject::PlugFrame.spec_query(iid@),
    {
        HostObject::PlugFrame.query_interface(iid)
    }

    /// A view asks for a new size. The answer is always ok, and the size
    /// is passed on to the window that embeds the view, as its extents.
    pub fn resize_view(&self, view: usize, new_size: ViewRect) -> (result: (TResult, (u32, u32)))
        ensures
            result.0 == TResult::ResultOk,
            result.1 == new_size.spec_extents(),
    {
        (TResult::ResultOk, new_size.extents())
    }
}

/// A message of the host: an identifier, held as the address of the
/// C string that its writer owns, and a list of attributes.
pub struct HostMessage {
    vtable: [VtableSlot; 6],
    references: u32,
    message_id: usize,
    attributes: HostApplicationList,
}

/// A reference count after a reference was taken. The count stops at the
/// largest number rather than wrap.
pub open spec fn spec_add_ref(count: u32) -> u32 {
    if count < u32::MAX {
        (count + 1) as u32
    } else {
        count
    }
}

/// A reference count after a reference was given back. At zero the object
/// is gone, and stays gone.
pub open spec fn spec_release(count: u32) -> u32 {
    if count > 0 {
        (count - 1) as u32
    } else {
        0
    }
}

impl HostMessage {
    pub closed spec fn spec_vtable(self) -> Seq<VtableSlot> {
        self.vtable@
    }

    /// The number of references that are held on the message.
    pub closed spec fn spec_references(self) -> u32 {
        self.references
    }

    /// The address of the identifier; zero if none was set.
    pub closed spec fn spec_message_id(self) -> usize {
        self.message_id
    }

    /// The attributes of the message.
    pub closed spec fn spec_attributes(self) -> Map<Seq<char>, ParamValueModel> {
        self.attributes@
    }

    /// A message without identifier and without attributes, on which its
    /// maker holds the one reference.
    pub open spec fn spec_is_new(self) -> bool {
        &&& self.spec_vtable() == spec_vtable_layout(InterfaceKind::IMessage)
        &&& self.spec_references() == 1
        &&& self.spec_message_id() == 0
        &&& self.spec_attributes() == crate::attributes::spec_no_entries()
    }

    pub fn new() -> (message: HostMessage)
        ensures
            message.spec_is_new(),
    {
        let message = HostMessage {
            vtable: [
                unknown_slot(0),
                unknown_slot(1),
                unknown_slot(2),
                own_slot(InterfaceKind::IMessage, 0),
                own_slot(InterfaceKind::IMessage, 1),
                own_slot(InterfaceKind::IMessage, 2),
            ],
            references: 1,
            message_id: 0,
            attributes: HostApplicationList::new(),
        };
        proof {
            lemma_layout_of_unknown_child(InterfaceKind::IMessage);
            assert(message.vtable@ =~= spec_vtable_layout(InterfaceKind::IMessage));
        }
        message
    }

    /// The function table of the object, slot by slot.
    pub fn vtable(&self) -> (slots: &[VtableSlot; 6])
        ensures
            slots@ == self.spec_vtable(),
    {
        &self.vtable
    }

    /// Answers a query for an interface. A query that is answered with
    /// the message itself takes a reference on it.
    pub fn query_interface(&mut self, iid: &FUID) -> (answer: QueryAnswer)
        ensures
            answer == HostObject::Message.spec_query(iid@),
            final(self).spec_references() == if answer == QueryAnswer::This {
                spec_add_ref(old(self).spec_references())
            } else {
                old(self).spec_references()
            },
            final(self).spec_message_id() == old(self).spec_message_id(),
            final(self).spec_attributes() == old(self).spec_attributes(),
            final(self).spec_vtable() == old(self).spec_vtable(),
    {
        let answer = HostObject::Message.query_interface(iid);
        if answer == QueryAnswer::This {
            self.add_ref();
        }
        answer
    }

    /// Takes a reference on the message, and returns the new count.
    pub fn add_ref(&mut self) -> (count: u32)
        ensures
            count == spec_add_ref(old(self).spec_references()),
            final(self).spec_references() == count,
            final(self).spec_message_id() == old(self).spec_message_id(),
            final(self).spec_attributes() == old(self).spec_attributes(),
            final(self).spec_vtable() == old(self).spec_vtable(),
    {
        if self.references < u32::MAX {
            self.references = self.references + 1;
        }
        self.references
    }

    /// Gives a reference on the message back, and returns the new count.
    /// When it is zero the message is to be destroyed.
    pub fn release(&mut self) -> (count: u32)
        ensures
            count == spec_release(old(self).spec_references()),
            final(self).spec_references() == count,
            final(self).spec_message_id() == old(self).spec_message_id(),
            final(self).spec_attributes() == old(self).spec_attributes(),
            final(self).spec_vtable() == old(self).spec_vtable(),
    {
        if self.references > 0 {
            self.references = self.references - 1;
        }
        self.references
    }

    pub fn get_message_id(&self) -> (id: usize)
        ensures
            id == self.spec_message_id(),
    {
        self.message_id
    }

    pub fn set_message_id(&mut self, id: usize)
        ensures
            final(self).spec_message_id() == id,
            final(self).spec_references() == old(self).spec_references(),
            final(self).spec_attributes() == old(self).spec_attributes(),
            final(self).spec_vtable() == old(self).spec_vtable(),
    {
        self.message_id = id;
    }

    /// The attribute list of the message, to read.
    pub fn attributes(&self) -> (list: &HostApplicationList)
        ensures
            list@ == self.spec_attributes(),
    {
        &self.attributes
    }

    /// The attribute list of the message, to read and to write.
    pub fn get_attributes(&mut self) -> (list: &mut HostApplicationList)
        ensures
            list@ == old(self).spec_attributes(),
            final(self).spec_attributes() == final(list)@,
            final(self).spec_references() == old(self).spec_references(),
            final(self).spec_message_id() == old(self).spec_message_id(),
            final(self).spec_vtable() == old(self).spec_vtable(),
    {
        &mut self.attributes
    }
}

/// A reference that is taken and given back leaves the count as it was;
/// the count reaches zero only from one, so that an object is destroyed
/// once; and what is gone stays gone.
pub proof fn lemma_references_net_to_zero(count: u32)
    ensures
        count < u32::MAX ==> spec_release(spec_add_ref(count)) == count,
        spec_release(count) == 0 ==> count <= 1,
        spec_release(0) == 0,
        spec_release(spec_add_ref(1)) == 1,
        spec_release(1) == 0,
{
}

/// The cross-query: asked for the host application, the component handler
/// answers with the host application object, and that object gives the
/// name of the host, character by character, as UTF-16.
pub proof fn lemma_handler_leads_to_host_application()
    ensures
        HostObject::ComponentHandler.spec_query(InterfaceKind::IHostApplication.spec_iid())
            == QueryAnswer::HostApplication,
        HostObject::HostApplication.spec_query(InterfaceKind::IHostApplication.spec_iid())
            == QueryAnswer::This,
        forall|i: int|
            0 <= i < 5 ==> #[trigger] spec_string128(spec_host_name())[i] == spec_host_name()[i] as u16,
        forall|i: int| 5 <= i < 128 ==> #[trigger] spec_string128(spec_host_name())[i] == 0,
{
    reveal_with_fuel(InterfaceKind::spec_extends, 4);
    let iid = InterfaceKind::IHostApplication.spec_iid();
    assert(InterfaceKind::IHostApplication.spec_extends(InterfaceKind::IHostApplication));
    assert forall|a: InterfaceKind| #[trigger]
        InterfaceKind::IComponentHandler.spec_extends(a) implies a.spec_iid() != iid by {
        if a.spec_iid() == iid {
            crate::interface::lemma_iids_distinct(a, InterfaceKind::IHostApplication);
        }
    }
    assert forall|a: InterfaceKind| #[trigger]
        InterfaceKind::IComponentHandler2.spec_extends(a) implies a.spec_iid() != iid by {
        if a.spec_iid() == iid {
            crate::interface::lemma_iids_distinct(a, InterfaceKind::IHostApplication);
        }
    }
}

/// Every host object answers a query for the base interface, and for the
/// interface that it implements, with itself; an identifier that the host
/// does not know is answered with no interface.
pub proof fn lemma_query_answers(object: HostObject, iid: Seq<u8>)
    ensures
        object.spec_query(InterfaceKind::FUnknown.spec_iid()) == QueryAnswer::This,
        object.spec_query(object.spec_interface().spec_iid()) == QueryAnswer::This,
        crate::interface::spec_kind_of(iid) is None ==> object.spec_query(iid)
            == QueryAnswer::NoInterface,
        object.spec_query(iid).spec_status() == if object.spec_query(iid)
            == QueryAnswer::NoInterface {
            TResult::NoInterface
        } else {
            TResult::ResultOk
        },
{
    reveal_with_fuel(InterfaceKind::spec_extends, 4);
    let kind = object.spec_interface();
    assert(kind.spec_extends(kind));
    assert(kind.spec_extends(InterfaceKind::FUnknown));
    if crate::interface::spec_kind_of(iid) is None {
        assert forall|a: InterfaceKind| a.spec_iid() != iid by {}
    }
}

} // verus!
