//! An item store that hands out 4-byte [`ItemId`]s for typed item indices,
//! backed by the generational slot allocator of [`crate::registry::slot`].
use crate::registry::slot::{self as slots, SlotModel};
use vstd::prelude::*;

verus! {

/// Identifies an item held by a [`SlotStorage`]. It is 4 bytes long and
/// 4-byte aligned.
#[derive(Clone, Copy, PartialEq, Eq, Debug)]
pub struct ItemId {
    index: Index,
    version: Version,
    align: [u32; 0],
}

/// The kinds of item a [`SlotStorage`] knows: the one-byte type tag of the
/// item store, so that a [`SlotPayload`] takes 6 bytes.
pub type ItemType = crate::item_storage::types::Type;

/// The index of an item's value.
#[derive(Clone, Copy, PartialEq, Eq, Debug, Structural)]
pub struct Index(pub u16);

/// The version of a slot.
#[derive(Clone, Copy, Debug, PartialEq, Eq, Structural)]
pub struct Version(pub u16);

/// The item type and value index that a live slot holds.
#[derive(Clone, Copy, Debug, PartialEq, Eq, Structural)]
pub struct Item {
    pub item_type: ItemType,
    pub value_index: Index,
}

/// What a slot of a [`SlotStorage`] holds.
pub type SlotPayload = slots::Payload<Item>;

/// An item as the pair that [`SlotStorage::get`] returns.
pub open spec fn item_pair(r: Option<Item>) -> Option<(ItemType, Index)> {
    match r {
        Some(item) => Some((item.item_type, item.value_index)),
        None => None,
    }
}

impl ItemId {
    pub fn new(index: u16, version: u16) -> (r: Self)
        ensures
            r.spec_index() == index,
            r.spec_version() == version,
    {
        ItemId { index: Index(index), version: Version(version), align: [] }
    }

    pub closed spec fn spec_index(self) -> u16 {
        self.index.0
    }

    pub closed spec fn spec_version(self) -> u16 {
        self.version.0
    }

    /// The slot index this id names.
    pub fn index(&self) -> (r: u16)
        ensures
            r == self.spec_index(),
    {
        self.index.0
    }

    /// The slot version this id was issued for.
    pub fn version(&self) -> (r: u16)
        ensures
            r == self.spec_version(),
    {
        self.version.0
    }

    /// The id of the underlying slot allocator that this id stands for.
    pub open spec fn to_slot_id(self) -> slots::Id {
        slots::Id::spec_new(slots::Index(self.spec_index()), slots::Version(self.spec_version()))
    }

    fn from_slot_id(id: slots::Id) -> (r: Self)
        ensures
            r.to_slot_id() == id,
    {
        let r = ItemId { index: Index(id.index.0), version: Version(id.version.0), align: [] };
        proof {
            slots::Id::lemma_eq(r.to_slot_id(), id);
        }
        r
    }
}

/// The ids of the slot allocator, taken back to item ids.
pub open spec fn to_slot_id_opt(r: Option<ItemId>) -> Option<slots::Id> {
    match r {
        Some(id) => Some(id.to_slot_id()),
        None => None,
    }
}

/// Maps item ids to an item type and a value index.
pub struct SlotStorage {
    slots: slots::Storage<Item>,
}

impl View for SlotStorage {
    type V = SlotModel<Item>;

    closed spec fn view(&self) -> SlotModel<Item> {
        self.slots@
    }
}

impl SlotStorage {
    pub closed spec fn wf(&self) -> bool {
        self.slots.wf()
    }

    /// A storage with one free slot at version 1.
    pub fn new() -> (r: Self)
        ensures
            r.wf(),
            r@.slots == seq![slots::Slot::<Item> { version: slots::Version(1), payload: slots::Payload::Free { next_free: None } }],
            r@.freelist_head == Some(slots::Index(0)),
            r@.num_allocated == 0,
    {
        SlotStorage { slots: slots::Storage::new() }
    }

    /// The item type and value index that `id` names, if it names a live
    /// item.
    pub fn get(&self, id: ItemId) -> (r: Option<(ItemType, Index)>)
        ensures
            r == item_pair(self@.get(id.to_slot_id())),
    {
        match self.slots.get(id.to_slot_id_exec()) {
            Some(item) => Some((item.item_type, item.value_index)),
            None => None,
        }
    }

    /// Stores an item, reusing the head of the free list when there is one.
    /// Returns `None` when every one of the `u16::MAX` slots is taken.
    pub fn allocate(&mut self, item_type: ItemType, value_index: Index) -> (r: Option<ItemId>)
        requires
            old(self).wf(),
        ensures
            final(self).wf(),
            (final(self)@, to_slot_id_opt(r)) == old(self)@.allocate(Item { item_type, value_index }),
    {
        match self.slots.allocate(Item { item_type, value_index }) {
            Some(id) => Some(ItemId::from_slot_id(id)),
            None => None,
        }
    }

    /// Frees the slot that `id` names; an `id` that names no live item
    /// changes nothing.
    pub fn free(&mut self, id: ItemId)
        requires
            old(self).wf(),
        ensures
            final(self).wf(),
            final(self)@ == old(self)@.take(id.to_slot_id()).0,
    {
        let _ = self.slots.take(id.to_slot_id_exec());
    }

    /// The number of slots, free or not.
    pub fn num_slots(&self) -> (r: usize)
        ensures
            r == self@.slots.len(),
    {
        self.slots.num_slots()
    }

    /// The head of the free list.
    pub fn freelist_head(&self) -> (r: Option<slots::Index>)
        ensures
            r == self@.freelist_head,
    {
        self.slots.freelist_head()
    }

    /// A copy of the slot at `index`, if there is one.
    pub fn slot(&self, index: usize) -> (r: Option<slots::Slot<Item>>)
        ensures
            r == if index < self@.slots.len() {
                Some(self@.slots[index as int])
            } else {
                None
            },
    {
        self.slots.slot(index)
    }
}

impl ItemId {
    fn to_slot_id_exec(&self) -> (r: slots::Id)
        ensures
            r == self.to_slot_id(),
    {
        slots::Id::new(slots::Index(self.index.0), slots::Version(self.version.0))
    }
}

} // verus!
