//! Storage of values addressed by generational ids.
//!
//! A [`Registry`] keeps each value in one of three object storages, by the
//! value's size (128, 64 or 32 bits), and hands out an [`Id`] that names a
//! slot holding the value's type and its place in that storage.

pub mod named;
pub mod object;
pub mod slot;
pub mod types;

use object::ObjectModel;
pub use slot::Id;
use slot::{Payload, SlotModel};
use std::marker::PhantomData;
pub use types::{ObjectIndex, RegistryObject, Type, Value};
use vstd::prelude::*;

verus! {

/// The message of a registry that is dropped while it still holds values.
pub const ALLOCATIONS_NOT_FREED: &'static str = "All allocations must be freed before destroying the registry.";

#[derive(Debug, Clone, Copy, PartialEq, Eq, Structural)]
pub enum Error {
    OutOfIds,
    InvalidId,
    TypeMismatch { expected: Type, actual: Type },
}

/// An [`Id`] that remembers the type of the value it names.
#[derive(Debug, PartialEq, Eq)]
pub struct TypedId<T>(Id, PhantomData<T>);

impl<T> Clone for TypedId<T> {
    fn clone(&self) -> (r: Self)
        ensures
            r == *self,
    {
        TypedId(self.0, PhantomData)
    }
}

impl<T> Copy for TypedId<T> {

}

impl<T> TypedId<T> {
    /// The untyped id.
    pub closed spec fn id(self) -> Id {
        self.0
    }

    pub fn get(self) -> (r: Id)
        ensures
            r == self.id(),
    {
        self.0
    }
}

/// What a slot of a registry holds: the type of the value and its place in
/// the object storage of its size.
#[derive(Clone, Copy, Debug, PartialEq, Eq, Structural)]
pub struct Entry {
    pub object_type: Type,
    pub object_index: ObjectIndex,
}

/// A value of 128 bits.
pub enum Object128 {
    U128(u128),
    I128(i128),
    StaticStr(&'static str),
}

/// A value of 64 bits.
pub enum Object64 {
    U64(u64),
    I64(i64),
}

/// A value of 32 bits.
pub enum Object32 {
    Char(char),
    U32(u32),
    I32(i32),
}

impl Object128 {
    pub open spec fn to_value(self) -> Value {
        match self {
            Object128::U128(v) => Value::U128(v),
            Object128::I128(v) => Value::I128(v),
            Object128::StaticStr(v) => Value::StaticStr(v),
        }
    }

    pub open spec fn from_value(v: Value) -> Object128 {
        match v {
            Value::I128(x) => Object128::I128(x),
            Value::StaticStr(x) => Object128::StaticStr(x),
            Value::U128(x) => Object128::U128(x),
            _ => Object128::U128(0),
        }
    }
}

impl Object64 {
    pub open spec fn to_value(self) -> Value {
        match self {
            Object64::U64(v) => Value::U64(v),
            Object64::I64(v) => Value::I64(v),
        }
    }

    pub open spec fn from_value(v: Value) -> Object64 {
        match v {
            Value::I64(x) => Object64::I64(x),
            Value::U64(x) => Object64::U64(x),
            _ => Object64::U64(0),
        }
    }
}

impl Object32 {
    pub open spec fn to_value(self) -> Value {
        match self {
            Object32::Char(v) => Value::Char(v),
            Object32::U32(v) => Value::U32(v),
            Object32::I32(v) => Value::I32(v),
        }
    }

    pub open spec fn from_value(v: Value) -> Object32 {
        match v {
            Value::Char(x) => Object32::Char(x),
            Value::I32(x) => Object32::I32(x),
            Value::U32(x) => Object32::U32(x),
            _ => Object32::U32(0),
        }
    }
}

/// The size class of a type: 128, 64 or 32 bits, or 0 for the types that a
/// registry cannot hold.
pub open spec fn class_of(t: Type) -> int {
    match t {
        Type::U128 | Type::I128 | Type::StaticStr => 128,
        Type::U64 | Type::I64 => 64,
        Type::U32 | Type::I32 | Type::Char => 32,
        _ => 0,
    }
}

/// The abstract state of a [`Registry`]: its slots and its three object
/// storages.
pub struct RegistryModel {
    pub slots: SlotModel<Entry>,
    pub objects_128: ObjectModel<Object128>,
    pub objects_64: ObjectModel<Object64>,
    pub objects_32: ObjectModel<Object32>,
}

impl RegistryModel {
    /// Whether slot `i` holds a value.
    pub open spec fn active(self, i: int) -> bool {
        0 <= i < self.slots.slots.len() && self.slots.slots[i].payload is Active
    }

    /// The entry of slot `i`.
    pub open spec fn entry(self, i: int) -> Entry {
        self.slots.slots[i].payload->Active_0
    }

    /// Whether the object that `e` places is live.
    pub open spec fn holds(self, e: Entry) -> bool {
        if class_of(e.object_type) == 128 {
            self.objects_128.is_live(e.object_index)
        } else if class_of(e.object_type) == 64 {
            self.objects_64.is_live(e.object_index)
        } else if class_of(e.object_type) == 32 {
            self.objects_32.is_live(e.object_index)
        } else {
            false
        }
    }

    /// The value of the object that `e` places.
    pub open spec fn value_of(self, e: Entry) -> Value {
        if class_of(e.object_type) == 128 {
            self.objects_128.object(e.object_index).to_value()
        } else if class_of(e.object_type) == 64 {
            self.objects_64.object(e.object_index).to_value()
        } else {
            self.objects_32.object(e.object_index).to_value()
        }
    }

    /// The value that `id` names, if any.
    pub open spec fn lookup(self, id: Id) -> Option<Value> {
        match self.slots.get(id) {
            Some(e) => Some(self.value_of(e)),
            None => None,
        }
    }

    /// The type of the value that `id` names.
    pub open spec fn type_of(self, id: Id) -> Result<Type, Error> {
        match self.slots.get(id) {
            Some(e) => Ok(e.object_type),
            None => Err(Error::InvalidId),
        }
    }

    /// The value that `id` names, read as a value of type `expected`.
    pub open spec fn lookup_as(self, id: Id, expected: Type) -> Result<Value, Error> {
        match self.slots.get(id) {
            Some(e) => if e.object_type == expected {
                Ok(self.value_of(e))
            } else {
                Err(Error::TypeMismatch { expected, actual: e.object_type })
            },
            None => Err(Error::InvalidId),
        }
    }

    /// The effect of storing `v` in the object storage of its size: the new
    /// state and the object's index.
    pub open spec fn store(self, v: Value) -> (Self, Option<ObjectIndex>) {
        if class_of(v.object_type()) == 128 {
            let (o, i) = self.objects_128.store(Object128::from_value(v));
            (RegistryModel { objects_128: o, ..self }, i)
        } else if class_of(v.object_type()) == 64 {
            let (o, i) = self.objects_64.store(Object64::from_value(v));
            (RegistryModel { objects_64: o, ..self }, i)
        } else {
            let (o, i) = self.objects_32.store(Object32::from_value(v));
            (RegistryModel { objects_32: o, ..self }, i)
        }
    }

    /// The effect of deleting the object that `e` places.
    pub open spec fn delete(self, e: Entry) -> Self {
        if class_of(e.object_type) == 128 {
            RegistryModel { objects_128: self.objects_128.delete(e.object_index), ..self }
        } else if class_of(e.object_type) == 64 {
            RegistryModel { objects_64: self.objects_64.delete(e.object_index), ..self }
        } else {
            RegistryModel { objects_32: self.objects_32.delete(e.object_index), ..self }
        }
    }

    /// The effect of replacing the object that `e` places by `v`.
    pub open spec fn set_object(self, e: Entry, v: Value) -> Self {
        if class_of(e.object_type) == 128 {
            RegistryModel {
                objects_128: self.objects_128.set_object(e.object_index, Object128::from_value(v)),
                ..self
            }
        } else if class_of(e.object_type) == 64 {
            RegistryModel {
                objects_64: self.objects_64.set_object(e.object_index, Object64::from_value(v)),
                ..self
            }
        } else {
            RegistryModel {
                objects_32: self.objects_32.set_object(e.object_index, Object32::from_value(v)),
                ..self
            }
        }
    }

    /// The effect of inserting `v`: the object is stored first, then a slot
    /// is allocated for it. When no slot is left the stored object stays
    /// where it is, unnamed.
    pub open spec fn insert(self, v: Value) -> (Self, Result<Id, Error>) {
        let (m, stored) = self.store(v);
        match stored {
            Some(index) => {
                let (slots, id) = m.slots.allocate(
                    Entry { object_type: v.object_type(), object_index: index },
                );
                (
                    RegistryModel { slots, ..m },
                    match id {
                        Some(id) => Ok(id),
                        None => Err(Error::OutOfIds),
                    },
                )
            },
            None => (self, Err(Error::OutOfIds)),
        }
    }

    /// The effect of removing the value that `id` names.
    pub open spec fn remove(self, id: Id) -> (Self, Result<(), Error>) {
        let (slots, taken) = self.slots.take(id);
        match taken {
            Some(e) => (RegistryModel { slots, ..self }.delete(e), Ok(())),
            None => (self, Err(Error::InvalidId)),
        }
    }

    /// The effect of replacing the value that `id` names by `v`.
    pub open spec fn set(self, id: Id, v: Value) -> Self {
        match self.slots.get(id) {
            Some(e) => self.set_object(e, v),
            None => self,
        }
    }

    /// Each value names a live object of its type, and no two values share
    /// an object.
    pub open spec fn consistent(self) -> bool {
        &&& forall|i: int|
            #![trigger self.slots.slots[i]]
            self.active(i) ==> self.holds(self.entry(i)) && self.value_of(
                self.entry(i),
            ).object_type() == self.entry(i).object_type
        &&& forall|i: int, j: int|
            #![trigger self.slots.slots[i], self.slots.slots[j]]
            self.active(i) && self.active(j) && i != j && class_of(self.entry(i).object_type)
                == class_of(self.entry(j).object_type) ==> self.entry(i).object_index
                != self.entry(j).object_index
    }

    /// The state of a new registry: one free slot at version 1 and empty
    /// object storages.
    pub open spec fn initial() -> RegistryModel {
        RegistryModel {
            slots: SlotModel {
                slots: seq![slot::Slot { version: slot::Version(1), payload: Payload::Free { next_free: None } }],
                freelist_head: Some(slot::Index(0)),
                num_allocated: 0,
            },
            objects_128: ObjectModel { values: Seq::empty(), free_list: None, num_free_objects: 0 },
            objects_64: ObjectModel { values: Seq::empty(), free_list: None, num_free_objects: 0 },
            objects_32: ObjectModel { values: Seq::empty(), free_list: None, num_free_objects: 0 },
        }
    }

    /// What every reachable state satisfies.
    pub open spec fn wf(self) -> bool {
        &&& self.slots.wf()
        &&& self.objects_128.wf()
        &&& self.objects_64.wf()
        &&& self.objects_32.wf()
        &&& self.consistent()
    }
}


/// Storing a value leaves every live object of every storage as it was, and
/// places the new object where no live object was.
proof fn lemma_store(m: RegistryModel, v: Value)
    requires
        m.wf(),
    ensures
        ({
            let (m2, r) = m.store(v);
            &&& m2.slots == m.slots
            &&& forall|e: Entry| #[trigger] m.holds(e) ==> m2.holds(e) && m2.value_of(e) == m.value_of(e)
            &&& r matches Some(index) ==> {
                let e = Entry { object_type: v.object_type(), object_index: index };
                &&& m2.holds(e)
                &&& m2.value_of(e) == v
                &&& !m.holds(e)
                &&& forall|f: Entry| #[trigger] m.holds(f) && class_of(f.object_type) == class_of(v.object_type())
                    ==> f.object_index != index
            }
        }),
{
    let (m2, r) = m.store(v);
    if class_of(v.object_type()) == 128 {
        let o = Object128::from_value(v);
        assert forall|e: Entry| #[trigger] m.holds(e) implies m2.holds(e) && m2.value_of(e) == m.value_of(e) by {
            if class_of(e.object_type) == 128 {
                object::lemma_store_preserves_others(m.objects_128, o, e.object_index);
            }
        }
        object::lemma_get_after_store(m.objects_128, o);
        assert forall|f: Entry| #[trigger] m.holds(f) && class_of(f.object_type) == class_of(v.object_type())
            implies r != Some(f.object_index) by {
            object::lemma_store_preserves_others(m.objects_128, o, f.object_index);
        }
    } else if class_of(v.object_type()) == 64 {
        let o = Object64::from_value(v);
        assert forall|e: Entry| #[trigger] m.holds(e) implies m2.holds(e) && m2.value_of(e) == m.value_of(e) by {
            if class_of(e.object_type) == 64 {
                object::lemma_store_preserves_others(m.objects_64, o, e.object_index);
            }
        }
        object::lemma_get_after_store(m.objects_64, o);
        assert forall|f: Entry| #[trigger] m.holds(f) && class_of(f.object_type) == class_of(v.object_type())
            implies r != Some(f.object_index) by {
            object::lemma_store_preserves_others(m.objects_64, o, f.object_index);
        }
    } else {
        let o = Object32::from_value(v);
        assert forall|e: Entry| #[trigger] m.holds(e) implies m2.holds(e) && m2.value_of(e) == m.value_of(e) by {
            if class_of(e.object_type) == 32 {
                object::lemma_store_preserves_others(m.objects_32, o, e.object_index);
            }
        }
        object::lemma_get_after_store(m.objects_32, o);
        assert forall|f: Entry| #[trigger] m.holds(f) && class_of(f.object_type) == class_of(v.object_type())
            implies r != Some(f.object_index) by {
            object::lemma_store_preserves_others(m.objects_32, o, f.object_index);
        }
    }
}

/// Inserting keeps the registry well formed.
proof fn lemma_insert_wf(m: RegistryModel, v: Value)
    requires
        m.wf(),
    ensures
        m.insert(v).0.consistent(),
{
    let (m1, stored) = m.store(v);
    lemma_store(m, v);
    if let Some(index) = stored {
        let e = Entry { object_type: v.object_type(), object_index: index };
        let (slots, id) = m1.slots.allocate(e);
        let m2 = RegistryModel { slots, ..m1 };
        let k = match m.slots.freelist_head {
            Some(h) => h.0 as int,
            None => m.slots.slots.len() as int,
        };
        assert forall|i: int| #![trigger m2.slots.slots[i]] m2.active(i) implies m2.holds(m2.entry(i))
            && m2.value_of(m2.entry(i)).object_type() == m2.entry(i).object_type by {
            if id is Some && i == k {
                assert(m2.entry(i) == e);
            } else {
                assert(m.active(i));
                assert(m.slots.slots[i] == m2.slots.slots[i]);
            }
        }
        assert forall|i: int, j: int|
            #![trigger m2.slots.slots[i], m2.slots.slots[j]]
            m2.active(i) && m2.active(j) && i != j && class_of(m2.entry(i).object_type)
                == class_of(m2.entry(j).object_type) implies m2.entry(i).object_index
                != m2.entry(j).object_index by {
            if id is Some && i == k {
                assert(m.active(j));
                assert(m.slots.slots[j] == m2.slots.slots[j]);
                assert(m.holds(m.entry(j)));
            } else if id is Some && j == k {
                assert(m.active(i));
                assert(m.slots.slots[i] == m2.slots.slots[i]);
                assert(m.holds(m.entry(i)));
            } else {
                assert(m.active(i));
                assert(m.active(j));
                assert(m.slots.slots[i] == m2.slots.slots[i]);
                assert(m.slots.slots[j] == m2.slots.slots[j]);
            }
        }
    }
}

/// Deleting the object of an entry that no value names any more leaves
/// every other live object as it was.
proof fn lemma_delete(m: RegistryModel, e: Entry)
    requires
        m.holds(e),
    ensures
        ({
            let m2 = m.delete(e);
            &&& m2.slots == m.slots
            &&& forall|f: Entry| #[trigger] m.holds(f) && !(class_of(f.object_type) == class_of(e.object_type)
                && f.object_index == e.object_index) ==> m2.holds(f) && m2.value_of(f) == m.value_of(f)
        }),
{
    let m2 = m.delete(e);
    assert forall|f: Entry| #[trigger] m.holds(f) && !(class_of(f.object_type) == class_of(e.object_type)
        && f.object_index == e.object_index) implies m2.holds(f) && m2.value_of(f) == m.value_of(f) by {
        if class_of(f.object_type) == class_of(e.object_type) {
            if class_of(e.object_type) == 128 {
                object::lemma_delete_preserves_others(m.objects_128, e.object_index, f.object_index);
            } else if class_of(e.object_type) == 64 {
                object::lemma_delete_preserves_others(m.objects_64, e.object_index, f.object_index);
            } else {
                object::lemma_delete_preserves_others(m.objects_32, e.object_index, f.object_index);
            }
        }
    }
}

/// Removing keeps the registry well formed.
proof fn lemma_remove_wf(m: RegistryModel, id: Id)
    requires
        m.wf(),
    ensures
        m.remove(id).0.consistent(),
{
    let (slots, taken) = m.slots.take(id);
    if let Some(e) = taken {
        let k = id.index.0 as int;
        let m1 = RegistryModel { slots, ..m };
        assert(m.active(k));
        assert(m.entry(k) == e);
        lemma_delete(m1, e);
        let m2 = m1.delete(e);
        assert forall|i: int| #![trigger m2.slots.slots[i]] m2.active(i) implies m2.holds(m2.entry(i))
            && m2.value_of(m2.entry(i)).object_type() == m2.entry(i).object_type by {
            assert(i != k);
            assert(m.active(i));
            assert(m.slots.slots[i] == m2.slots.slots[i]);
            assert(m1.holds(m.entry(i)));
        }
        assert forall|i: int, j: int|
            #![trigger m2.slots.slots[i], m2.slots.slots[j]]
            m2.active(i) && m2.active(j) && i != j && class_of(m2.entry(i).object_type)
                == class_of(m2.entry(j).object_type) implies m2.entry(i).object_index
                != m2.entry(j).object_index by {
            assert(m.slots.slots[i] == m2.slots.slots[i]);
            assert(m.slots.slots[j] == m2.slots.slots[j]);
        }
    }
}

/// A value that was inserted can be read back, under its own type, through
/// the id that the insertion returned.
pub proof fn lemma_get_after_insert(m: RegistryModel, v: Value)
    requires
        m.wf(),
    ensures
        m.insert(v).1 matches Ok(id) ==> {
            &&& m.insert(v).0.lookup(id) == Some(v)
            &&& m.insert(v).0.type_of(id) == Ok::<Type, Error>(v.object_type())
            &&& m.insert(v).0.lookup_as(id, v.object_type()) == Ok::<Value, Error>(v)
        },
{
    lemma_store(m, v);
}

/// Inserting leaves the value of every other id as it was, and never hands
/// out an id that already names a value.
pub proof fn lemma_insert_preserves_others(m: RegistryModel, v: Value, other: Id)
    requires
        m.wf(),
        m.lookup(other) is Some,
    ensures
        m.insert(v).0.lookup(other) == m.lookup(other),
        m.insert(v).1 != Ok::<Id, Error>(other),
{
    lemma_store(m, v);
    let k = other.index.0 as int;
    assert(m.active(k));
    assert(m.holds(m.entry(k)));
    let (m1, stored) = m.store(v);
    if let Some(index) = stored {
        let e = Entry { object_type: v.object_type(), object_index: index };
        slot::lemma_allocate_preserves_others(m1.slots, e, other);
    }
}

/// Inserting hands out an id that was never handed out before; every id
/// that could not be handed out still cannot.
pub proof fn lemma_insert_spends(m: RegistryModel, v: Value, other: Id)
    requires
        m.wf(),
    ensures
        m.insert(v).1 matches Ok(id) ==> m.insert(v).0.slots.spent(id) && !m.slots.spent(id),
        m.slots.spent(other) ==> m.insert(v).0.slots.spent(other),
{
    lemma_store(m, v);
    let (m1, stored) = m.store(v);
    if let Some(index) = stored {
        let e = Entry { object_type: v.object_type(), object_index: index };
        slot::lemma_allocate_spends(m1.slots, e, other);
    }
}

/// Removing leaves every id that could not be handed out as it was.
pub proof fn lemma_remove_spends(m: RegistryModel, id: Id, other: Id)
    ensures
        m.slots.spent(other) ==> m.remove(id).0.slots.spent(other),
{
    slot::lemma_take_spends(m.slots, id, other);
}

/// Removing the value of an id invalidates it: reading it fails with
/// [`Error::InvalidId`], and so does removing it again.
pub proof fn lemma_remove_invalidates(m: RegistryModel, id: Id)
    requires
        m.consistent(),
        m.lookup(id) is Some,
    ensures
        m.remove(id).1 == Ok::<(), Error>(()),
        m.remove(id).0.lookup(id) is None,
        m.remove(id).0.lookup_as(id, m.lookup(id)->0.object_type()) == Err::<Value, Error>(Error::InvalidId),
        m.remove(id).0.remove(id).1 == Err::<(), Error>(Error::InvalidId),
{
    let (slots, taken) = m.slots.take(id);
    let e = taken->0;
    lemma_delete(RegistryModel { slots, ..m }, e);
}

/// Removing a value leaves the value of every other id as it was.
pub proof fn lemma_remove_preserves_others(m: RegistryModel, id: Id, other: Id)
    requires
        m.consistent(),
        m.lookup(other) is Some,
        other.index != id.index || other.version != id.version,
    ensures
        m.remove(id).0.lookup(other) == m.lookup(other),
{
    let (slots, taken) = m.slots.take(id);
    let k = other.index.0 as int;
    assert(m.active(k));
    if let Some(e) = taken {
        let j = id.index.0 as int;
        assert(m.active(j));
        assert(m.entry(j) == e);
        slot::lemma_take_invalidates(m.slots, id, other);
        let m1 = RegistryModel { slots, ..m };
        lemma_delete(m1, e);
        assert(j != k);
    }
}

/// Writing through a mutable reference changes the value of that id, and of
/// no other.
pub proof fn lemma_set_then_lookup(m: RegistryModel, id: Id, v: Value, other: Id)
    requires
        m.wf(),
        m.lookup(id) matches Some(old_value) && old_value.object_type() == v.object_type(),
    ensures
        m.set(id, v).lookup(id) == Some(v),
        m.set(id, v).wf(),
        other.index != id.index || other.version != id.version ==> m.set(id, v).lookup(other)
            == m.lookup(other),
{
    let k = id.index.0 as int;
    assert(m.active(k));
    let e = m.entry(k);
    let m2 = m.set(id, v);
    assert forall|i: int| #![trigger m2.slots.slots[i]] m2.active(i) implies m2.holds(m2.entry(i))
        && m2.value_of(m2.entry(i)).object_type() == m2.entry(i).object_type by {
        assert(m.active(i));
        if i != k && class_of(m.entry(i).object_type) == class_of(e.object_type) {
            assert(m.entry(i).object_index != e.object_index);
        }
    }
    if m.lookup(other) is Some && (other.index != id.index || other.version != id.version) {
        let j = other.index.0 as int;
        assert(m.active(j));
        if j != k && class_of(m.entry(j).object_type) == class_of(e.object_type) {
            assert(m.entry(j).object_index != e.object_index);
        }
    }
    if class_of(e.object_type) == 128 {
        m.objects_128.lemma_set_object_wf(e.object_index, Object128::from_value(v));
    } else if class_of(e.object_type) == 64 {
        m.objects_64.lemma_set_object_wf(e.object_index, Object64::from_value(v));
    } else {
        m.objects_32.lemma_set_object_wf(e.object_index, Object32::from_value(v));
    }
}

/// Inserting keeps the type of every id that names a value, and gives a
/// type to no id that names none, but the one it hands out.
pub proof fn lemma_insert_keeps_types(m: RegistryModel, v: Value, other: Id)
    requires
        m.wf(),
    ensures
        m.type_of(other) is Ok ==> m.insert(v).0.type_of(other) == m.type_of(other),
        m.type_of(other) is Err && m.insert(v).1 != Ok::<Id, Error>(other) ==> m.insert(v).0.type_of(
            other,
        ) == Err::<Type, Error>(Error::InvalidId),
{
    lemma_store(m, v);
    let (m1, stored) = m.store(v);
    if let Some(index) = stored {
        let e = Entry { object_type: v.object_type(), object_index: index };
        if m.type_of(other) is Ok {
            slot::lemma_allocate_preserves_others(m1.slots, e, other);
        }
        if let Some(issued) = m1.slots.allocate(e).1 {
            if issued.index == other.index && issued.version == other.version {
                Id::lemma_eq(issued, other);
            }
        }
    }
}

/// Removing keeps the type of every other id that names a value, and gives
/// a type to no id that names none.
pub proof fn lemma_remove_keeps_types(m: RegistryModel, id: Id, other: Id)
    ensures
        (other.index != id.index || other.version != id.version) && m.type_of(other) is Ok
            ==> m.remove(id).0.type_of(other) == m.type_of(other),
        m.type_of(other) is Err ==> m.remove(id).0.type_of(other) == Err::<Type, Error>(Error::InvalidId),
{
    if m.slots.get(id) is Some && m.slots.get(other) is Some && (other.index != id.index
        || other.version != id.version) {
        slot::lemma_take_invalidates(m.slots, id, other);
    }
}

/// Removing the value of an id retires the id.
pub proof fn lemma_remove_retires(m: RegistryModel, id: Id)
    requires
        m.type_of(id) is Ok,
    ensures
        m.remove(id).1 == Ok::<(), Error>(()),
        m.remove(id).0.slots.retired(id),
{
    slot::lemma_take_retires(m.slots, id);
}

/// Inserting and removing keep every retired id retired.
pub proof fn lemma_retired_stays_retired(m: RegistryModel, v: Value, removed: Id, id: Id)
    requires
        m.wf(),
        m.slots.retired(id),
    ensures
        m.insert(v).0.slots.retired(id),
        m.remove(removed).0.slots.retired(id),
{
    lemma_store(m, v);
    let (m1, stored) = m.store(v);
    if let Some(index) = stored {
        let e = Entry { object_type: v.object_type(), object_index: index };
        slot::lemma_allocate_keeps_retired(m1.slots, e, id);
    }
    slot::lemma_take_keeps_retired(m.slots, removed, id);
}

/// A retired id names no value: reading it, or its type, fails with
/// [`Error::InvalidId`], and so does removing it.
pub proof fn lemma_retired_is_invalid(m: RegistryModel, id: Id)
    requires
        m.slots.retired(id),
    ensures
        m.lookup(id) is None,
        m.type_of(id) == Err::<Type, Error>(Error::InvalidId),
        m.remove(id).1 == Err::<(), Error>(Error::InvalidId),
{
    slot::lemma_retired_names_nothing(m.slots, id);
}

/// No id names a value in a new registry.
pub proof fn lemma_initial_names_nothing(id: Id)
    ensures
        RegistryModel::initial().type_of(id) == Err::<Type, Error>(Error::InvalidId),
        RegistryModel::initial().lookup(id) is None,
{
}

/// Stores values of the types that implement [`Ops`], each under an [`Id`].
pub struct Registry {
    slots: slot::Storage<Entry>,
    objects_128: object::Storage<Object128>,
    objects_64: object::Storage<Object64>,
    objects_32: object::Storage<Object32>,
}

impl View for Registry {
    type V = RegistryModel;

    closed spec fn view(&self) -> RegistryModel {
        RegistryModel {
            slots: self.slots@,
            objects_128: self.objects_128@,
            objects_64: self.objects_64@,
            objects_32: self.objects_32@,
        }
    }
}

impl Registry {
    /// The internal invariant: each storage keeps its own, and the slots
    /// and objects agree.
    pub closed spec fn wf(&self) -> bool {
        &&& self.slots.wf()
        &&& self.objects_128.wf()
        &&& self.objects_64.wf()
        &&& self.objects_32.wf()
        &&& self@.consistent()
    }

    /// The internal invariant implies the abstract one.
    pub proof fn lemma_wf(&self)
        requires
            self.wf(),
        ensures
            self@.wf(),
    {
        self.slots.lemma_wf();
        self.objects_128.lemma_wf();
        self.objects_64.lemma_wf();
        self.objects_32.lemma_wf();
    }

    pub fn new() -> (r: Self)
        ensures
            r.wf(),
            r@ == RegistryModel::initial(),
    {
        let r = Registry {
            slots: slot::Storage::new(),
            objects_128: object::Storage::new(),
            objects_64: object::Storage::new(),
            objects_32: object::Storage::new(),
        };
        assert(r@.objects_128.values =~= Seq::empty());
        assert(r@.objects_64.values =~= Seq::empty());
        assert(r@.objects_32.values =~= Seq::empty());
        r
    }

    /// Returns `true` if the `id` refers to a value.
    pub fn is_valid(&self, id: Id) -> (r: bool)
        ensures
            r == self@.lookup(id) is Some,
    {
        self.slots.get(id).is_some()
    }

    /// Returns the type of the value referred to by `id`, or
    /// [`Error::InvalidId`] if there is none.
    pub fn type_of(&self, id: Id) -> (r: Result<Type, Error>)
        ensures
            r == self@.type_of(id),
    {
        match self.slots.get(id) {
            Some(entry) => Ok(entry.object_type),
            None => Err(Error::InvalidId),
        }
    }

    /// Deletes the object that `e` places.
    fn delete_object(&mut self, e: Entry)
        requires
            old(self).objects_128.wf(),
            old(self).objects_64.wf(),
            old(self).objects_32.wf(),
            old(self)@.holds(e),
        ensures
            final(self).objects_128.wf(),
            final(self).objects_64.wf(),
            final(self).objects_32.wf(),
            final(self).slots == old(self).slots,
            final(self)@ == old(self)@.delete(e),
    {
        match e.object_type {
            Type::U128 | Type::I128 | Type::StaticStr => self.objects_128.delete(e.object_index),
            Type::U64 | Type::I64 => self.objects_64.delete(e.object_index),
            Type::U32 | Type::I32 | Type::Char => self.objects_32.delete(e.object_index),
            _ => vstd::pervasive::unreached(),
        }
    }

    /// Removes the value referred to by `id`.
    pub fn remove(&mut self, id: Id) -> (r: Result<(), Error>)
        requires
            old(self).wf(),
        ensures
            final(self).wf(),
            (final(self)@, r) == old(self)@.remove(id),
    {
        proof {
            self.lemma_wf();
            lemma_remove_wf(self@, id);
        }
        match self.slots.take(id) {
            Some(entry) => {
                proof {
                    assert(old(self)@.active(id.index.0 as int));
                    assert(old(self)@.entry(id.index.0 as int) == entry);
                }
                self.delete_object(entry);
                Ok(())
            },
            None => Err(Error::InvalidId),
        }
    }

    /// The object of 128 bits that `id` names, if it is of type `expected`.
    fn object_128(&self, id: Id, expected: Type) -> (r: Result<&Object128, Error>)
        requires
            self.wf(),
            class_of(expected) == 128,
        ensures
            match r {
                Ok(o) => {
                    &&& self@.lookup_as(id, expected) == Ok::<Value, Error>((*o).to_value())
                    &&& (*o).to_value().object_type() == expected
                },
                Err(e) => self@.lookup_as(id, expected) == Err::<Value, Error>(e),
            },
    {
        match self.slots.get(id) {
            Some(entry) => {
                if entry.object_type == expected {
                    proof {
                        assert(self@.active(id.index.0 as int));
                    }
                    Ok(self.objects_128.get(entry.object_index))
                } else {
                    Err(Error::TypeMismatch { expected, actual: entry.object_type })
                }
            },
            None => Err(Error::InvalidId),
        }
    }

    /// A mutable reference to the object of 128 bits that `id` names, if it
    /// is of type `expected`. The registry stays well formed as long as the
    /// object keeps its type.
    fn object_128_mut(&mut self, id: Id, expected: Type) -> (r: Result<&mut Object128, Error>)
        requires
            old(self).wf(),
            class_of(expected) == 128,
        ensures
            match r {
                Ok(o) => {
                    &&& old(self)@.lookup_as(id, expected) == Ok::<Value, Error>((*o).to_value())
                    &&& (*o).to_value().object_type() == expected
                    &&& (*final(o)).to_value().object_type() == expected ==> final(self).wf()
                    &&& final(self)@ == old(self)@.set(id, (*final(o)).to_value())
                },
                Err(e) => {
                    &&& old(self)@.lookup_as(id, expected) == Err::<Value, Error>(e)
                    &&& *final(self) == *old(self)
                },
            },
    {
        match self.slots.get(id) {
            Some(entry) => {
                if entry.object_type == expected {
                    proof {
                        assert(self@.active(id.index.0 as int));
                    }
                    Ok(self.objects_128.get_mut(entry.object_index))
                } else {
                    Err(Error::TypeMismatch { expected, actual: entry.object_type })
                }
            },
            None => Err(Error::InvalidId),
        }
    }

    /// The object of 64 bits that `id` names, if it is of type `expected`.
    fn object_64(&self, id: Id, expected: Type) -> (r: Result<&Object64, Error>)
        requires
            self.wf(),
            class_of(expected) == 64,
        ensures
            match r {
                Ok(o) => {
                    &&& self@.lookup_as(id, expected) == Ok::<Value, Error>((*o).to_value())
                    &&& (*o).to_value().object_type() == expected
                },
                Err(e) => self@.lookup_as(id, expected) == Err::<Value, Error>(e),
            },
    {
        match self.slots.get(id) {
            Some(entry) => {
                if entry.object_type == expected {
                    proof {
                        assert(self@.active(id.index.0 as int));
                    }
                    Ok(self.objects_64.get(entry.object_index))
                } else {
                    Err(Error::TypeMismatch { expected, actual: entry.object_type })
                }
            },
            None => Err(Error::InvalidId),
        }
    }

    /// A mutable reference to the object of 64 bits that `id` names, if it
    /// is of type `expected`. The registry stays well formed as long as the
    /// object keeps its type.
    fn object_64_mut(&mut self, id: Id, expected: Type) -> (r: Result<&mut Object64, Error>)
        requires
            old(self).wf(),
            class_of(expected) == 64,
        ensures
            match r {
                Ok(o) => {
                    &&& old(self)@.lookup_as(id, expected) == Ok::<Value, Error>((*o).to_value())
                    &&& (*o).to_value().object_type() == expected
                    &&& (*final(o)).to_value().object_type() == expected ==> final(self).wf()
                    &&& final(self)@ == old(self)@.set(id, (*final(o)).to_value())
                },
                Err(e) => {
                    &&& old(self)@.lookup_as(id, expected) == Err::<Value, Error>(e)
                    &&& *final(self) == *old(self)
                },
            },
    {
        match self.slots.get(id) {
            Some(entry) => {
                if entry.object_type == expected {
                    proof {
                        assert(self@.active(id.index.0 as int));
                    }
                    Ok(self.objects_64.get_mut(entry.object_index))
                } else {
                    Err(Error::TypeMismatch { expected, actual: entry.object_type })
                }
            },
            None => Err(Error::InvalidId),
        }
    }

    /// The object of 32 bits that `id` names, if it is of type `expected`.
    fn object_32(&self, id: Id, expected: Type) -> (r: Result<&Object32, Error>)
        requires
            self.wf(),
            class_of(expected) == 32,
        ensures
            match r {
                Ok(o) => {
                    &&& self@.lookup_as(id, expected) == Ok::<Value, Error>((*o).to_value())
                    &&& (*o).to_value().object_type() == expected
                },
                Err(e) => self@.lookup_as(id, expected) == Err::<Value, Error>(e),
            },
    {
        match self.slots.get(id) {
            Some(entry) => {
                if entry.object_type == expected {
                    proof {
                        assert(self@.active(id.index.0 as int));
                    }
                    Ok(self.objects_32.get(entry.object_index))
                } else {
                    Err(Error::TypeMismatch { expected, actual: entry.object_type })
                }
            },
            None => Err(Error::InvalidId),
        }
    }

    /// A mutable reference to the object of 32 bits that `id` names, if it
    /// is of type `expected`. The registry stays well formed as long as the
    /// object keeps its type.
    fn object_32_mut(&mut self, id: Id, expected: Type) -> (r: Result<&mut Object32, Error>)
        requires
            old(self).wf(),
            class_of(expected) == 32,
        ensures
            match r {
                Ok(o) => {
                    &&& old(self)@.lookup_as(id, expected) == Ok::<Value, Error>((*o).to_value())
                    &&& (*o).to_value().object_type() == expected
                    &&& (*final(o)).to_value().object_type() == expected ==> final(self).wf()
                    &&& final(self)@ == old(self)@.set(id, (*final(o)).to_value())
                },
                Err(e) => {
                    &&& old(self)@.lookup_as(id, expected) == Err::<Value, Error>(e)
                    &&& *final(self) == *old(self)
                },
            },
    {
        match self.slots.get(id) {
            Some(entry) => {
                if entry.object_type == expected {
                    proof {
                        assert(self@.active(id.index.0 as int));
                    }
                    Ok(self.objects_32.get_mut(entry.object_index))
                } else {
                    Err(Error::TypeMismatch { expected, actual: entry.object_type })
                }
            },
            None => Err(Error::InvalidId),
        }
    }

    /// Stores `v` and allocates a slot for it.
    fn insert_value(&mut self, v: Value) -> (r: Result<Id, Error>)
        requires
            old(self).wf(),
        ensures
            final(self).wf(),
            (final(self)@, r) == old(self)@.insert(v),
    {
        proof {
            self.lemma_wf();
            lemma_insert_wf(self@, v);
        }
        let (object_type, stored) = match v {
            Value::U128(x) => (Type::U128, self.objects_128.store(Object128::U128(x))),
            Value::I128(x) => (Type::I128, self.objects_128.store(Object128::I128(x))),
            Value::StaticStr(x) => (Type::StaticStr, self.objects_128.store(Object128::StaticStr(x))),
            Value::U64(x) => (Type::U64, self.objects_64.store(Object64::U64(x))),
            Value::I64(x) => (Type::I64, self.objects_64.store(Object64::I64(x))),
            Value::U32(x) => (Type::U32, self.objects_32.store(Object32::U32(x))),
            Value::I32(x) => (Type::I32, self.objects_32.store(Object32::I32(x))),
            Value::Char(x) => (Type::Char, self.objects_32.store(Object32::Char(x))),
        };
        match stored {
            Some(object_index) => {
                match self.slots.allocate(Entry { object_type, object_index }) {
                    Some(id) => Ok(id),
                    None => Err(Error::OutOfIds),
                }
            },
            None => Err(Error::OutOfIds),
        }
    }
}

/// The operations on values of type `T`.
pub trait Ops<T: RegistryObject>: Sized {
    /// The abstract state of the registry.
    spec fn state(&self) -> RegistryModel;

    /// The invariant of the registry.
    spec fn well_formed(&self) -> bool;

    /// Retrieves a reference to the object referred to by `id`. Returns
    /// [`Error::InvalidId`] if `id` names no value, and
    /// [`Error::TypeMismatch`] if the value is not a `T`.
    fn get(&self, id: Id) -> (r: Result<&T, Error>)
        requires
            self.well_formed(),
        ensures
            match r {
                Ok(v) => self.state().lookup_as(id, T::TYPE) == Ok::<Value, Error>((*v).to_value()),
                Err(e) => self.state().lookup_as(id, T::TYPE) == Err::<Value, Error>(e),
            },
    ;

    /// Retrieves a mutable reference to the object referred to by `id`.
    /// Returns [`Error::InvalidId`] if `id` names no value, and
    /// [`Error::TypeMismatch`] if the value is not a `T`.
    fn get_mut(&mut self, id: Id) -> (r: Result<&mut T, Error>)
        requires
            old(self).well_formed(),
        ensures
            match r {
                Ok(v) => {
                    &&& old(self).state().lookup_as(id, T::TYPE) == Ok::<Value, Error>((*v).to_value())
                    &&& final(self).well_formed()
                    &&& final(self).state() == old(self).state().set(id, (*final(v)).to_value())
                },
                Err(e) => {
                    &&& old(self).state().lookup_as(id, T::TYPE) == Err::<Value, Error>(e)
                    &&& *final(self) == *old(self)
                },
            },
    ;

    /// Retrieves a reference to the object referred to by `id`, which
    /// carries the type of the value. Returns [`Error::InvalidId`] if `id`
    /// names no value, and [`Error::TypeMismatch`] if the value it names is
    /// not a `T` (which only an id of another registry can do).
    fn get_typed(&self, id: TypedId<T>) -> (r: Result<&T, Error>)
        requires
            self.well_formed(),
        ensures
            match r {
                Ok(v) => self.state().lookup_as(id.id(), T::TYPE) == Ok::<Value, Error>((*v).to_value()),
                Err(e) => self.state().lookup_as(id.id(), T::TYPE) == Err::<Value, Error>(e),
            },
    ;

    /// Retrieves a mutable reference to the object referred to by `id`, as
    /// [`Ops::get_mut`] does.
    fn get_typed_mut(&mut self, id: TypedId<T>) -> (r: Result<&mut T, Error>)
        requires
            old(self).well_formed(),
        ensures
            match r {
                Ok(v) => {
                    &&& old(self).state().lookup_as(id.id(), T::TYPE) == Ok::<Value, Error>((*v).to_value())
                    &&& final(self).well_formed()
                    &&& final(self).state() == old(self).state().set(id.id(), (*final(v)).to_value())
                },
                Err(e) => {
                    &&& old(self).state().lookup_as(id.id(), T::TYPE) == Err::<Value, Error>(e)
                    &&& *final(self) == *old(self)
                },
            },
    ;

    /// Inserts a new value into the [`Registry`], returning an ID that can
    /// be used to retrieve it at a later time. Returns
    /// [`Error::OutOfIds`] when no slot or no object place is left.
    fn insert(&mut self, value: T) -> (r: Result<TypedId<T>, Error>)
        requires
            old(self).well_formed(),
        ensures
            final(self).well_formed(),
            final(self).state() == old(self).state().insert(value.to_value()).0,
            match r {
                Ok(id) => old(self).state().insert(value.to_value()).1 == Ok::<Id, Error>(id.id()),
                Err(e) => old(self).state().insert(value.to_value()).1 == Err::<Id, Error>(e),
            },
    ;

    /// Destroys the value identified by `id`. Returns
    /// [`Error::InvalidId`], and changes nothing, if it names no value.
    fn remove_typed(&mut self, id: TypedId<T>) -> (r: Result<(), Error>)
        requires
            old(self).well_formed(),
        ensures
            final(self).well_formed(),
            (final(self).state(), r) == old(self).state().remove(id.id()),
    ;
}

impl Ops<u128> for Registry {
    open spec fn state(&self) -> RegistryModel {
        self@
    }

    open spec fn well_formed(&self) -> bool {
        self.wf()
    }

    fn get(&self, id: Id) -> (r: Result<&u128, Error>) {
        proof {
            u128::lemma_to_value(0, 0);
        }
        match self.object_128(id, Type::U128) {
            Ok(Object128::U128(v)) => Ok(v),
            Ok(_) => vstd::pervasive::unreached(),
            Err(e) => Err(e),
        }
    }

    fn get_mut(&mut self, id: Id) -> (r: Result<&mut u128, Error>) {
        proof {
            u128::lemma_to_value(0, 0);
        }
        match self.object_128_mut(id, Type::U128) {
            Ok(Object128::U128(v)) => Ok(v),
            Ok(_) => vstd::pervasive::unreached(),
            Err(e) => Err(e),
        }
    }

    fn get_typed(&self, id: TypedId<u128>) -> (r: Result<&u128, Error>) {
        self.get(id.get())
    }

    fn get_typed_mut(&mut self, id: TypedId<u128>) -> (r: Result<&mut u128, Error>) {
        self.get_mut(id.get())
    }

    fn insert(&mut self, value: u128) -> (r: Result<TypedId<u128>, Error>) {
        match self.insert_value(Value::U128(value)) {
            Ok(id) => Ok(TypedId(id, PhantomData)),
            Err(e) => Err(e),
        }
    }

    fn remove_typed(&mut self, id: TypedId<u128>) -> (r: Result<(), Error>) {
        self.remove(id.get())
    }
}

impl Ops<i128> for Registry {
    open spec fn state(&self) -> RegistryModel {
        self@
    }

    open spec fn well_formed(&self) -> bool {
        self.wf()
    }

    fn get(&self, id: Id) -> (r: Result<&i128, Error>) {
        proof {
            i128::lemma_to_value(0, 0);
        }
        match self.object_128(id, Type::I128) {
            Ok(Object128::I128(v)) => Ok(v),
            Ok(_) => vstd::pervasive::unreached(),
            Err(e) => Err(e),
        }
    }

    fn get_mut(&mut self, id: Id) -> (r: Result<&mut i128, Error>) {
        proof {
            i128::lemma_to_value(0, 0);
        }
        match self.object_128_mut(id, Type::I128) {
            Ok(Object128::I128(v)) => Ok(v),
            Ok(_) => vstd::pervasive::unreached(),
            Err(e) => Err(e),
        }
    }

    fn get_typed(&self, id: TypedId<i128>) -> (r: Result<&i128, Error>) {
        self.get(id.get())
    }

    fn get_typed_mut(&mut self, id: TypedId<i128>) -> (r: Result<&mut i128, Error>) {
        self.get_mut(id.get())
    }

    fn insert(&mut self, value: i128) -> (r: Result<TypedId<i128>, Error>) {
        match self.insert_value(Value::I128(value)) {
            Ok(id) => Ok(TypedId(id, PhantomData)),
            Err(e) => Err(e),
        }
    }

    fn remove_typed(&mut self, id: TypedId<i128>) -> (r: Result<(), Error>) {
        self.remove(id.get())
    }
}

impl Ops<&'static str> for Registry {
    open spec fn state(&self) -> RegistryModel {
        self@
    }

    open spec fn well_formed(&self) -> bool {
        self.wf()
    }

    fn get(&self, id: Id) -> (r: Result<&&'static str, Error>) {
        proof {
            <&'static str>::lemma_to_value("", "");
        }
        match self.object_128(id, Type::StaticStr) {
            Ok(Object128::StaticStr(v)) => Ok(v),
            Ok(_) => vstd::pervasive::unreached(),
            Err(e) => Err(e),
        }
    }

    fn get_mut(&mut self, id: Id) -> (r: Result<&mut &'static str, Error>) {
        proof {
            <&'static str>::lemma_to_value("", "");
        }
        match self.object_128_mut(id, Type::StaticStr) {
            Ok(Object128::StaticStr(v)) => Ok(v),
            Ok(_) => vstd::pervasive::unreached(),
            Err(e) => Err(e),
        }
    }

    fn get_typed(&self, id: TypedId<&'static str>) -> (r: Result<&&'static str, Error>) {
        self.get(id.get())
    }

    fn get_typed_mut(&mut self, id: TypedId<&'static str>) -> (r: Result<&mut &'static str, Error>) {
        self.get_mut(id.get())
    }

    fn insert(&mut self, value: &'static str) -> (r: Result<TypedId<&'static str>, Error>) {
        match self.insert_value(Value::StaticStr(value)) {
            Ok(id) => Ok(TypedId(id, PhantomData)),
            Err(e) => Err(e),
        }
    }

    fn remove_typed(&mut self, id: TypedId<&'static str>) -> (r: Result<(), Error>) {
        self.remove(id.get())
    }
}

impl Ops<u64> for Registry {
    open spec fn state(&self) -> RegistryModel {
        self@
    }

    open spec fn well_formed(&self) -> bool {
        self.wf()
    }

    fn get(&self, id: Id) -> (r: Result<&u64, Error>) {
        proof {
            u64::lemma_to_value(0, 0);
        }
        match self.object_64(id, Type::U64) {
            Ok(Object64::U64(v)) => Ok(v),
            Ok(_) => vstd::pervasive::unreached(),
            Err(e) => Err(e),
        }
    }

    fn get_mut(&mut self, id: Id) -> (r: Result<&mut u64, Error>) {
        proof {
            u64::lemma_to_value(0, 0);
        }
        match self.object_64_mut(id, Type::U64) {
            Ok(Object64::U64(v)) => Ok(v),
            Ok(_) => vstd::pervasive::unreached(),
            Err(e) => Err(e),
        }
    }

    fn get_typed(&self, id: TypedId<u64>) -> (r: Result<&u64, Error>) {
        self.get(id.get())
    }

    fn get_typed_mut(&mut self, id: TypedId<u64>) -> (r: Result<&mut u64, Error>) {
        self.get_mut(id.get())
    }

    fn insert(&mut self, value: u64) -> (r: Result<TypedId<u64>, Error>) {
        match self.insert_value(Value::U64(value)) {
            Ok(id) => Ok(TypedId(id, PhantomData)),
            Err(e) => Err(e),
        }
    }

    fn remove_typed(&mut self, id: TypedId<u64>) -> (r: Result<(), Error>) {
        self.remove(id.get())
    }
}

impl Ops<i64> for Registry {
    open spec fn state(&self) -> RegistryModel {
        self@
    }

    open spec fn well_formed(&self) -> bool {
        self.wf()
    }

    fn get(&self, id: Id) -> (r: Result<&i64, Error>) {
        proof {
            i64::lemma_to_value(0, 0);
        }
        match self.object_64(id, Type::I64) {
            Ok(Object64::I64(v)) => Ok(v),
            Ok(_) => vstd::pervasive::unreached(),
            Err(e) => Err(e),
        }
    }

    fn get_mut(&mut self, id: Id) -> (r: Result<&mut i64, Error>) {
        proof {
            i64::lemma_to_value(0, 0);
        }
        match self.object_64_mut(id, Type::I64) {
            Ok(Object64::I64(v)) => Ok(v),
            Ok(_) => vstd::pervasive::unreached(),
            Err(e) => Err(e),
        }
    }

    fn get_typed(&self, id: TypedId<i64>) -> (r: Result<&i64, Error>) {
        self.get(id.get())
    }

    fn get_typed_mut(&mut self, id: TypedId<i64>) -> (r: Result<&mut i64, Error>) {
        self.get_mut(id.get())
    }

    fn insert(&mut self, value: i64) -> (r: Result<TypedId<i64>, Error>) {
        match self.insert_value(Value::I64(value)) {
            Ok(id) => Ok(TypedId(id, PhantomData)),
            Err(e) => Err(e),
        }
    }

    fn remove_typed(&mut self, id: TypedId<i64>) -> (r: Result<(), Error>) {
        self.remove(id.get())
    }
}

impl Ops<u32> for Registry {
    open spec fn state(&self) -> RegistryModel {
        self@
    }

    open spec fn well_formed(&self) -> bool {
        self.wf()
    }

    fn get(&self, id: Id) -> (r: Result<&u32, Error>) {
        proof {
            u32::lemma_to_value(0, 0);
        }
        match self.object_32(id, Type::U32) {
            Ok(Object32::U32(v)) => Ok(v),
            Ok(_) => vstd::pervasive::unreached(),
            Err(e) => Err(e),
        }
    }

    fn get_mut(&mut self, id: Id) -> (r: Result<&mut u32, Error>) {
        proof {
            u32::lemma_to_value(0, 0);
        }
        match self.object_32_mut(id, Type::U32) {
            Ok(Object32::U32(v)) => Ok(v),
            Ok(_) => vstd::pervasive::unreached(),
            Err(e) => Err(e),
        }
    }

    fn get_typed(&self, id: TypedId<u32>) -> (r: Result<&u32, Error>) {
        self.get(id.get())
    }

    fn get_typed_mut(&mut self, id: TypedId<u32>) -> (r: Result<&mut u32, Error>) {
        self.get_mut(id.get())
    }

    fn insert(&mut self, value: u32) -> (r: Result<TypedId<u32>, Error>) {
        match self.insert_value(Value::U32(value)) {
            Ok(id) => Ok(TypedId(id, PhantomData)),
            Err(e) => Err(e),
        }
    }

    fn remove_typed(&mut self, id: TypedId<u32>) -> (r: Result<(), Error>) {
        self.remove(id.get())
    }
}

impl Ops<i32> for Registry {
    open spec fn state(&self) -> RegistryModel {
        self@
    }

    open spec fn well_formed(&self) -> bool {
        self.wf()
    }

    fn get(&self, id: Id) -> (r: Result<&i32, Error>) {
        proof {
            i32::lemma_to_value(0, 0);
        }
        match self.object_32(id, Type::I32) {
            Ok(Object32::I32(v)) => Ok(v),
            Ok(_) => vstd::pervasive::unreached(),
            Err(e) => Err(e),
        }
    }

    fn get_mut(&mut self, id: Id) -> (r: Result<&mut i32, Error>) {
        proof {
            i32::lemma_to_value(0, 0);
        }
        match self.object_32_mut(id, Type::I32) {
            Ok(Object32::I32(v)) => Ok(v),
            Ok(_) => vstd::pervasive::unreached(),
            Err(e) => Err(e),
        }
    }

    fn get_typed(&self, id: TypedId<i32>) -> (r: Result<&i32, Error>) {
        self.get(id.get())
    }

    fn get_typed_mut(&mut self, id: TypedId<i32>) -> (r: Result<&mut i32, Error>) {
        self.get_mut(id.get())
    }

    fn insert(&mut self, value: i32) -> (r: Result<TypedId<i32>, Error>) {
        match self.insert_value(Value::I32(value)) {
            Ok(id) => Ok(TypedId(id, PhantomData)),
            Err(e) => Err(e),
        }
    }

    fn remove_typed(&mut self, id: TypedId<i32>) -> (r: Result<(), Error>) {
        self.remove(id.get())
    }
}

impl Ops<char> for Registry {
    open spec fn state(&self) -> RegistryModel {
        self@
    }

    open spec fn well_formed(&self) -> bool {
        self.wf()
    }

    fn get(&self, id: Id) -> (r: Result<&char, Error>) {
        proof {
            char::lemma_to_value('a', 'a');
        }
        match self.object_32(id, Type::Char) {
            Ok(Object32::Char(v)) => Ok(v),
            Ok(_) => vstd::pervasive::unreached(),
            Err(e) => Err(e),
        }
    }

    fn get_mut(&mut self, id: Id) -> (r: Result<&mut char, Error>) {
        proof {
            char::lemma_to_value('a', 'a');
        }
        match self.object_32_mut(id, Type::Char) {
            Ok(Object32::Char(v)) => Ok(v),
            Ok(_) => vstd::pervasive::unreached(),
            Err(e) => Err(e),
        }
    }

    fn get_typed(&self, id: TypedId<char>) -> (r: Result<&char, Error>) {
        self.get(id.get())
    }

    fn get_typed_mut(&mut self, id: TypedId<char>) -> (r: Result<&mut char, Error>) {
        self.get_mut(id.get())
    }

    fn insert(&mut self, value: char) -> (r: Result<TypedId<char>, Error>) {
        match self.insert_value(Value::Char(value)) {
            Ok(id) => Ok(TypedId(id, PhantomData)),
            Err(e) => Err(e),
        }
    }

    fn remove_typed(&mut self, id: TypedId<char>) -> (r: Result<(), Error>) {
        self.remove(id.get())
    }
}

} // verus!
