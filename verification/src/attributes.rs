//! The attribute list that the host hands out with its messages: values of
//! four kinds under textual keys.

use crate::interface::{own_slot, unknown_slot, InterfaceKind, VtableSlot};
use crate::status::TResult;
use rustc_hash::FxHashMap;
use vstd::prelude::*;

verus! {

/// A value of an attribute list. A float is held as the bit pattern of the
/// 64-bit float; a string as its UTF-16 code units without the terminating
/// NUL; binary data as the address and the length in bytes of memory that
/// stays with its owner.
#[derive(Debug, Clone)]
pub enum ParamValue {
    IntValue(i64),
    FloatValue(u64),
    CStrValue(Vec<u16>),
    BinaryValue(usize, u32),
}

/// What a `ParamValue` holds.
pub enum ParamValueModel {
    IntValue(i64),
    FloatValue(u64),
    CStrValue(Seq<u16>),
    BinaryValue(usize, u32),
}

impl View for ParamValue {
    type V = ParamValueModel;

    open spec fn view(&self) -> ParamValueModel {
        match *self {
            ParamValue::IntValue(value) => ParamValueModel::IntValue(value),
            ParamValue::FloatValue(bits) => ParamValueModel::FloatValue(bits),
            ParamValue::CStrValue(units) => ParamValueModel::CStrValue(units@),
            ParamValue::BinaryValue(address, size) => ParamValueModel::BinaryValue(address, size),
        }
    }
}

/// The hasher that `rustc_hash` gives its maps.
#[verifier::external_type_specification]
#[verifier::external_body]
pub struct ExFxBuildHasher(rustc_hash::FxBuildHasher);

/// The values that a map of attributes holds, under the text of their keys.
pub uninterp spec fn attribute_entries(list: FxHashMap<String, ParamValue>) -> Map<
    Seq<char>,
    ParamValueModel,
>;

/// A map of attributes that holds nothing.
pub open spec fn spec_no_entries() -> Map<Seq<char>, ParamValueModel> {
    Map::empty()
}

/// `FxHashMap::default` of `rustc_hash`: a map that holds nothing.
#[verifier::external_body]
fn attributes_new() -> (list: FxHashMap<String, ParamValue>)
    ensures
        attribute_entries(list) == spec_no_entries(),
{
    FxHashMap::default()
}

/// `HashMap::insert` on a map of `rustc_hash`: the key holds the value
/// afterwards, whether or not it held one before; the other keys are left
/// alone.
#[verifier::external_body]
fn attributes_insert(list: &mut FxHashMap<String, ParamValue>, key: String, value: ParamValue)
    ensures
        attribute_entries(*final(list)) == attribute_entries(*old(list)).insert(key@, value@),
{
    list.insert(key, value);
}

/// `HashMap::get` on a map of `rustc_hash`: a copy of the value that the
/// key holds, if it holds one.
#[verifier::external_body]
fn attributes_get(list: &FxHashMap<String, ParamValue>, key: &str) -> (value: Option<ParamValue>)
    ensures
        value is Some == attribute_entries(*list).contains_key(key@),
        value matches Some(found) ==> found@ == attribute_entries(*list)[key@],
{
    list.get(key).cloned()
}

/// The host's attribute list.
pub struct HostApplicationList {
    vtable: [VtableSlot; 11],
    list: FxHashMap<String, ParamValue>,
}

impl View for HostApplicationList {
    type V = Map<Seq<char>, ParamValueModel>;

    /// The values of the list, under the text of their keys.
    closed spec fn view(&self) -> Map<Seq<char>, ParamValueModel> {
        attribute_entries(self.list)
    }
}

/// The first `count` units of a string and its terminating NUL.
pub open spec fn spec_terminated(units: Seq<u16>, count: nat) -> Seq<u16> {
    (units + seq![0u16]).take(count as int)
}

/// How many units a read of a string copies: the string and its NUL, as far
/// as the buffer and the size that the reader named, in bytes, have room.
pub open spec fn spec_copied(units: Seq<u16>, buffer: nat, size_in_bytes: u32) -> nat {
    let wanted = units.len() + 1;
    let room = if buffer <= size_in_bytes as nat / 2 {
        buffer
    } else {
        size_in_bytes as nat / 2
    };
    if wanted <= room {
        wanted
    } else {
        room
    }
}

impl HostApplicationList {
    pub closed spec fn spec_vtable(self) -> Seq<VtableSlot> {
        self.vtable@
    }

    /// A list that holds nothing.
    pub fn new() -> (list: HostApplicationList)
        ensures
            list@ == spec_no_entries(),
            list.spec_vtable() == crate::interface::spec_vtable_layout(
                InterfaceKind::IAttributeList,
            ),
    {
        let list = HostApplicationList {
            vtable: [
                unknown_slot(0),
                unknown_slot(1),
                unknown_slot(2),
                own_slot(InterfaceKind::IAttributeList, 0),
                own_slot(InterfaceKind::IAttributeList, 1),
                own_slot(InterfaceKind::IAttributeList, 2),
                own_slot(InterfaceKind::IAttributeList, 3),
                own_slot(InterfaceKind::IAttributeList, 4),
                own_slot(InterfaceKind::IAttributeList, 5),
                own_slot(InterfaceKind::IAttributeList, 6),
                own_slot(InterfaceKind::IAttributeList, 7),
            ],
            list: attributes_new(),
        };
        proof {
            crate::interface::lemma_layout_of_unknown_child(InterfaceKind::IAttributeList);
            assert(list.vtable@ =~= crate::interface::spec_vtable_layout(
                InterfaceKind::IAttributeList,
            ));
        }
        list
    }

    /// The function table of the object, slot by slot.
    pub fn vtable(&self) -> (slots: &[VtableSlot; 11])
        ensures
            slots@ == self.spec_vtable(),
    {
        &self.vtable
    }

    /// Stores an integer under a key.
    pub fn set_int(&mut self, id: &str, value: i64) -> (status: TResult)
        ensures
            status == TResult::ResultOk,
            final(self)@ == old(self)@.insert(id@, ParamValueModel::IntValue(value)),
            final(self).spec_vtable() == old(self).spec_vtable(),
    {
        attributes_insert(&mut self.list, id.to_owned(), ParamValue::IntValue(value));
        TResult::ResultOk
    }

    /// Reads the integer under a key into `value`. Where the key holds no
    /// integer, `value` stays as it is; the status is ok either way.
    pub fn get_int(&self, id: &str, value: &mut i64) -> (status: TResult)
        ensures
            status == TResult::ResultOk,
            *final(value) == if self@.contains_key(id@) && self@[id@] is IntValue {
                self@[id@]->IntValue_0
            } else {
                *old(value)
            },
    {
        match attributes_get(&self.list, id) {
            Some(ParamValue::IntValue(found)) => {
                *value = found;
            },
            _ => {},
        }
        TResult::ResultOk
    }

    /// Stores a float, given as its bit pattern, under a key.
    pub fn set_float(&mut self, id: &str, bits: u64) -> (status: TResult)
        ensures
            status == TResult::ResultOk,
            final(self)@ == old(self)@.insert(id@, ParamValueModel::FloatValue(bits)),
            final(self).spec_vtable() == old(self).spec_vtable(),
    {
        attributes_insert(&mut self.list, id.to_owned(), ParamValue::FloatValue(bits));
        TResult::ResultOk
    }

    /// Reads the float under a key, as its bit pattern, into `bits`. Where
    /// the key holds no float, `bits` stays as it is.
    pub fn get_float(&self, id: &str, bits: &mut u64) -> (status: TResult)
        ensures
            status == TResult::ResultOk,
            *final(bits) == if self@.contains_key(id@) && self@[id@] is FloatValue {
                self@[id@]->FloatValue_0
            } else {
                *old(bits)
            },
    {
        match attributes_get(&self.list, id) {
            Some(ParamValue::FloatValue(found)) => {
                *bits = found;
            },
            _ => {},
        }
        TResult::ResultOk
    }

    /// Stores a string under a key: the units of `string` before its first
    /// NUL, or all of them if it holds none.
    pub fn set_string(&mut self, id: &str, string: &[u16]) -> (status: TResult)
        ensures
            status == TResult::ResultOk,
            final(self)@ == old(self)@.insert(
                id@,
                ParamValueModel::CStrValue(spec_units(string@)),
            ),
            final(self).spec_vtable() == old(self).spec_vtable(),
    {
        let units = units_of(string);
        attributes_insert(&mut self.list, id.to_owned(), ParamValue::CStrValue(units));
        TResult::ResultOk
    }

    /// Reads the string under a key into the front of `string`: its units
    /// and the terminating NUL, cut off where the buffer, or the size in
    /// bytes that the reader named, ends. Where the key holds no string,
    /// `string` stays as it is.
    pub fn get_string(&self, id: &str, string: &mut [u16], size_in_bytes: u32) -> (status: TResult)
        ensures
            status == TResult::ResultOk,
            final(string)@.len() == old(string)@.len(),
            final(string)@ == if self@.contains_key(id@) && self@[id@] is CStrValue {
                let units = self@[id@]->CStrValue_0;
                let count = spec_copied(units, old(string)@.len(), size_in_bytes);
                spec_terminated(units, count) + old(string)@.skip(count as int)
            } else {
                old(string)@
            },
    {
        match attributes_get(&self.list, id) {
            Some(ParamValue::CStrValue(found)) => {
                let room = if string.len() <= (size_in_bytes / 2) as usize {
                    string.len()
                } else {
                    (size_in_bytes / 2) as usize
                };
                let count = if found.len() < room {
                    found.len() + 1
                } else {
                    room
                };
                let ghost terminated = found@ + seq![0u16];
                let mut i: usize = 0;
                while i < count
                    invariant
                        i <= count <= string@.len(),
                        count <= found@.len() + 1,
                        string@.len() == old(string)@.len(),
                        terminated == found@ + seq![0u16],
                        forall|j: int| 0 <= j < i ==> string@[j] == terminated[j],
                        forall|j: int| i <= j < string@.len() ==> string@[j] == old(string)@[j],
                    decreases count - i,
                {
                    string[i] = if i < found.len() {
                        found[i]
                    } else {
                        0
                    };
                    i += 1;
                }
                proof {
                    assert(string@ =~= spec_terminated(found@, count as nat) + old(string)@.skip(
                        count as int,
                    ));
                }
            },
            _ => {},
        }
        TResult::ResultOk
    }

    /// Stores binary data under a key, as the address and the length that
    /// the writer named. The data itself is not copied.
    pub fn set_binary(&mut self, id: &str, data: usize, size_in_bytes: u32) -> (status: TResult)
        ensures
            status == TResult::ResultOk,
            final(self)@ == old(self)@.insert(
                id@,
                ParamValueModel::BinaryValue(data, size_in_bytes),
            ),
            final(self).spec_vtable() == old(self).spec_vtable(),
    {
        attributes_insert(
            &mut self.list,
            id.to_owned(),
            ParamValue::BinaryValue(data, size_in_bytes),
        );
        TResult::ResultOk
    }

    /// Reads the binary data under a key: its address into `data`, its
    /// length into `size_in_bytes`. Where the key holds no binary data, both
    /// stay as they are.
    pub fn get_binary(&self, id: &str, data: &mut usize, size_in_bytes: &mut u32) -> (status:
        TResult)
        ensures
            status == TResult::ResultOk,
            (*final(data), *final(size_in_bytes)) == if self@.contains_key(id@)
                && self@[id@] is BinaryValue {
                (self@[id@]->BinaryValue_0, self@[id@]->BinaryValue_1)
            } else {
                (*old(data), *old(size_in_bytes))
            },
    {
        match attributes_get(&self.list, id) {
            Some(ParamValue::BinaryValue(address, size)) => {
                *data = address;
                *size_in_bytes = size;
            },
            _ => {},
        }
        TResult::ResultOk
    }
}

/// The units of a buffer before its first NUL, or all of them if it holds
/// none.
pub open spec fn spec_units(buffer: Seq<u16>) -> Seq<u16>
    decreases buffer.len(),
{
    if buffer.len() == 0 || buffer[0] == 0 {
        Seq::empty()
    } else {
        seq![buffer[0]] + spec_units(buffer.subrange(1, buffer.len() as int))
    }
}

/// Copies the units of a buffer up to its first NUL.
pub fn units_of(buffer: &[u16]) -> (units: Vec<u16>)
    ensures
        units@ == spec_units(buffer@),
{
    let mut units: Vec<u16> = Vec::new();
    let mut i: usize = 0;
    proof {
        assert(buffer@.subrange(0, buffer@.len() as int) =~= buffer@);
        assert(units@ + spec_units(buffer@) =~= spec_units(buffer@));
    }
    while i < buffer.len() && buffer[i] != 0
        invariant
            i <= buffer@.len(),
            spec_units(buffer@) == units@ + spec_units(
                buffer@.subrange(i as int, buffer@.len() as int),
            ),
        decreases buffer@.len() - i,
    {
        let rest = Ghost(buffer@.subrange(i as int, buffer@.len() as int));
        units.push(buffer[i]);
        i += 1;
        proof {
            assert(rest@.subrange(1, rest@.len() as int) =~= buffer@.subrange(
                i as int,
                buffer@.len() as int,
            ));
            assert(units@ + spec_units(buffer@.subrange(i as int, buffer@.len() as int))
                =~= units@.drop_last() + spec_units(rest@));
        }
    }
    proof {
        let rest = buffer@.subrange(i as int, buffer@.len() as int);
        assert(spec_units(rest) =~= Seq::<u16>::empty());
        assert(units@ + Seq::<u16>::empty() =~= units@);
    }
    units
}

/// What is stored under a key is what is read under it, and a key of
/// another kind, or a key that holds nothing, leaves the reader's value
/// alone.
pub proof fn lemma_set_then_get(
    list: Map<Seq<char>, ParamValueModel>,
    id: Seq<char>,
    other: Seq<char>,
    value: ParamValueModel,
)
    ensures
        list.insert(id, value).contains_key(id),
        list.insert(id, value)[id] == value,
        other != id ==> list.insert(id, value).contains_key(other) == list.contains_key(other),
        other != id && list.contains_key(other) ==> list.insert(id, value)[other] == list[other],
{
}

} // verus!
