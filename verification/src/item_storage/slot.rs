//! The item store's slots: item ids mapped to a type tag and an object index,
//! on the generational slot allocator of [`crate::registry::slot`].
use super::types::{Id, ObjectIndex, Type};
use crate::registry::slot::{self as slots, SlotModel};
use vstd::prelude::*;

verus! {

/// The type tag and object index that a live slot holds.
#[derive(Clone, Copy, Debug, PartialEq, Eq, Structural)]
pub struct Item {
    pub item_type: Type,
    pub value_index: ObjectIndex,
}

/// What a slot of a [`Storage`] holds.
pub type Payload = slots::Payload<Item>;

/// An item as the pair that [`Storage::get`] returns.
pub open spec fn item_pair(r: Option<Item>) -> Option<(Type, ObjectIndex)> {
    match r {
        Some(item) => Some((item.item_type, item.value_index)),
        None => None,
    }
}

/// The slot allocator's ids for the item ids in `r`.
pub open spec fn to_slot_id_opt(r: Option<Id>) -> Option<slots::Id> {
    match r {
        Some(id) => Some(id.to_slot_id()),
        None => None,
    }
}

/// Maps item ids to a type tag and an object index.
pub struct Storage {
    slots: slots::Storage<Item>,
}

impl View for Storage {
    type V = SlotModel<Item>;

    closed spec fn view(&self) -> SlotModel<Item> {
        self.slots@
    }
}

impl Storage {
    pub closed spec fn wf(&self) -> bool {
        self.slots.wf()
    }

    /// A storage with one free slot at version 1.
    pub fn new() -> (r: Self)
        ensures
            r.wf(),
            r@.slots == seq![slots::Slot::<Item> { version: slots::Version(1), payload: slots::Payload::Free { next_free: None } }],
            r@.freelist_head == Some(slots::Index(0)),
            r@.num_allocated == 0,
    {
        Storage { slots: slots::Storage::new() }
    }

    /// The type tag and object index that `id` names, if it names a live
    /// item; `None` if `id` is invalid or its item was freed.
    pub fn get(&self, id: Id) -> (r: Option<(Type, ObjectIndex)>)
        ensures
            r == item_pair(self@.get(id.to_slot_id())),
    {
        match self.slots.get(id.to_slot_id_exec()) {
            Some(item) => Some((item.item_type, item.value_index)),
            None => None,
        }
    }

    /// Stores `item_type` and `value_index`, reusing the head of the free
    /// list when there is one. Returns `None` when every one of the
    /// `u16::MAX` slots is taken.
    pub fn allocate(&mut self, item_type: Type, value_index: ObjectIndex) -> (r: Option<Id>)
        requires
            old(self).wf(),
        ensures
            final(self).wf(),
            (final(self)@, to_slot_id_opt(r)) == old(self)@.allocate(Item { item_type, value_index }),
    {
        match self.slots.allocate(Item { item_type, value_index }) {
            Some(id) => Some(Id::from_slot_id(id)),
            None => None,
        }
    }

    /// Returns the slot that `id` names to the storage. This is a no-op if
    /// `id` names no live item.
    pub fn free(&mut self, id: Id)
        requires
            old(self).wf(),
        ensures
            final(self).wf(),
            final(self)@ == old(self)@.take(id.to_slot_id()).0,
    {
        let _ = self.slots.take(id.to_slot_id_exec());
    }

    /// The number of slots, free or not.
    pub fn num_slots(&self) -> (r: usize)
        ensures
            r == self@.slots.len(),
    {
        self.slots.num_slots()
    }

    /// The head of the free list.
    pub fn freelist_head(&self) -> (r: Option<slots::Index>)
        ensures
            r == self@.freelist_head,
    {
        self.slots.freelist_head()
    }

    /// A copy of the slot at `index`, if there is one.
    pub fn slot(&self, index: usize) -> (r: Option<slots::Slot<Item>>)
        ensures
            r == if index < self@.slots.len() {
                Some(self@.slots[index as int])
            } else {
                None
            },
    {
        self.slots.slot(index)
    }
}

} // verus!
