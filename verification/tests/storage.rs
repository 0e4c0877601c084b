use maple::data_store::{Index, Item, ItemId, ItemType, SlotPayload, SlotStorage};
use maple::item_storage::slot::{Payload, Storage as ItemSlots};
use maple::item_storage::types::{Id as ItemStorageId, ObjectIndex, SlotIndex, Type, Version};
use maple::registry::object::Storage as ObjectStorage;
use maple::registry::slot::{self as slots, Storage as Slots};
use maple::registry::types::ObjectIndex as RegistryObjectIndex;

#[test]
fn data_store_type_size() {
    assert_eq!(std::mem::size_of::<ItemId>(), 4, "ItemId is not the expected 4 bytes!");
    assert_eq!(std::mem::align_of::<ItemId>(), 4, "ItemId is not aligned to 4 bytes!");
    assert_eq!(std::mem::size_of::<SlotPayload>(), 6, "SlotPayload is not the expected 6 bytes!");
}

#[test]
fn data_store_slot_allocator_api() {
    let mut slots = {
        let init = SlotStorage::new();
        assert_eq!(init.num_slots(), 1);
        assert_eq!(init.freelist_head(), Some(slots::Index(0)));
        init
    };
    {
        let slot1 = slots.allocate(ItemType::Unknown, Index(0)).unwrap();
        assert_eq!(slot1, ItemId::new(0, 1));
        assert_eq!(slots.get(slot1), Some((ItemType::Unknown, Index(0))));
        assert_eq!(slots.num_slots(), 1);
        assert_eq!(slots.freelist_head(), None);

        slots.free(slot1);
        assert_eq!(slots.num_slots(), 1);
        assert_eq!(slots.slot(0).unwrap().payload, SlotPayload::Free { next_free: None });
        assert_eq!(slots.freelist_head(), Some(slots::Index(0)));

        let slot2 = slots.allocate(ItemType::Unknown, Index(100)).unwrap();
        assert_eq!(slots.get(slot1), None);
        assert_eq!(slots.get(slot2), Some((ItemType::Unknown, Index(100))));
        assert_eq!(slots.num_slots(), 1);
        assert_eq!(slots.freelist_head(), None);

        slots.free(slot2);
    }
}

#[test]
fn data_store_slot_allocator_dead_slot() {
    let mut slots = SlotStorage::new();

    // Set up slots[0] to be near 2 allocations away from retirement: every
    // allocation and free of the slot moves it on one version.
    for _ in 1..(u16::MAX - 1) {
        let id = slots.allocate(ItemType::Unknown, Index(0)).unwrap();
        slots.free(id);
    }
    assert_eq!(slots.slot(0).unwrap().version, slots::Version(u16::MAX - 1));

    let slot1 = slots.allocate(ItemType::Unknown, Index(1)).unwrap();
    assert_eq!(slots.slot(0).unwrap().version, slots::Version(u16::MAX - 1));
    slots.free(slot1);
    assert_eq!(slots.slot(0).unwrap().version, slots::Version(u16::MAX));
    assert!(slots.freelist_head().is_some());

    // Test that we can allocate a saturated node.
    let slot2 = slots.allocate(ItemType::Unknown, Index(3)).unwrap();
    assert_eq!(slots.slot(0).unwrap().version, slots::Version(u16::MAX));
    slots.free(slot2);
    assert_eq!(slots.slot(0).unwrap().version, slots::Version(u16::MAX)); // No change expected here

    // Test that the slot was correctly retired.
    assert!(slots.freelist_head().is_none());
    assert_eq!(slots.slot(0).unwrap().payload, SlotPayload::Dead);
}

#[test]
fn slot_type_size() {
    assert_eq!(std::mem::size_of::<ItemStorageId>(), 4, "ItemId is not the expected 4 bytes!");
    assert_eq!(std::mem::align_of::<ItemStorageId>(), 4, "ItemId is not aligned to 4 bytes!");
    assert_eq!(std::mem::size_of::<Payload>(), 6, "SlotPayload is not the expected 6 bytes!");

    assert_eq!(std::mem::size_of::<slots::Id>(), 4, "ItemId is not the expected 4 bytes!");
    assert_eq!(std::mem::align_of::<slots::Id>(), 4, "ItemId is not aligned to 4 bytes!");
}

#[test]
fn slot_slot_allocator_api() {
    // The slots of an item storage.
    let mut slots = {
        let init = ItemSlots::new();
        assert_eq!(init.num_slots(), 1);
        assert_eq!(init.freelist_head(), Some(slots::Index(0)));
        init
    };
    {
        let slot1 = slots.allocate(Type::Unknown, ObjectIndex(0)).unwrap();
        assert_eq!(slot1, ItemStorageId::new(SlotIndex(0), Version(1)));
        assert_eq!(slots.get(slot1), Some((Type::Unknown, ObjectIndex(0))));
        assert_eq!(slots.num_slots(), 1);
        assert_eq!(slots.freelist_head(), None);

        slots.free(slot1);
        assert_eq!(slots.num_slots(), 1);
        assert_eq!(slots.slot(0).unwrap().payload, Payload::Free { next_free: None });
        assert_eq!(slots.freelist_head(), Some(slots::Index(0)));

        let slot2 = slots.allocate(Type::Unknown, ObjectIndex(100)).unwrap();
        assert_eq!(slots.get(slot1), None);
        assert_eq!(slots.get(slot2), Some((Type::Unknown, ObjectIndex(100))));
        assert_eq!(slots.num_slots(), 1);
        assert_eq!(slots.freelist_head(), None);

        slots.free(slot2);
    }

    // The generic slot storage of the registry.
    let mut slots = {
        let init = Slots::<i32>::new();
        assert_eq!(init.num_slots(), 1);
        assert_eq!(init.freelist_head(), Some(slots::Index(0)));
        init
    };
    {
        let slot1 = slots.allocate(10).unwrap();
        assert_eq!(slots.is_valid(slot1), true);
        assert_eq!(slot1, slots::Id::new(slots::Index(0), slots::Version(1)));
        assert_eq!(slots.get(slot1), Some(10));
        assert_eq!(slots.num_slots(), 1);
        assert_eq!(slots.freelist_head(), None);

        assert_eq!(slots.take(slot1), Some(10));
        assert_eq!(slots.is_valid(slot1), false);
        assert_eq!(slots.num_slots(), 1);
        assert_eq!(slots.slot(0).unwrap().payload, slots::Payload::Free { next_free: None });
        assert_eq!(slots.freelist_head(), Some(slots::Index(0)));

        let slot2 = slots.allocate(11).unwrap();
        assert_eq!(slots.is_valid(slot2), true);
        assert_eq!(slots.get(slot1), None);
        assert_eq!(slots.get(slot2), Some(11));
        assert_eq!(slots.num_slots(), 1);
        assert_eq!(slots.freelist_head(), None);

        slots.take(slot2);
    }
}

#[test]
fn slot_slot_allocator_dead_slot() {
    // The slots of an item storage.
    let mut slots = ItemSlots::new();
    for _ in 1..(u16::MAX - 1) {
        let id = slots.allocate(Type::Unknown, ObjectIndex(0)).unwrap();
        slots.free(id);
    }
    assert_eq!(slots.slot(0).unwrap().version, slots::Version(u16::MAX - 1));

    let slot1 = slots.allocate(Type::Unknown, ObjectIndex(1)).unwrap();
    assert_eq!(slots.slot(0).unwrap().version, slots::Version(u16::MAX - 1));
    slots.free(slot1);
    assert_eq!(slots.slot(0).unwrap().version, slots::Version(u16::MAX));
    assert!(slots.freelist_head().is_some());

    let slot2 = slots.allocate(Type::Unknown, ObjectIndex(3)).unwrap();
    assert_eq!(slots.slot(0).unwrap().version, slots::Version(u16::MAX));
    slots.free(slot2);
    assert_eq!(slots.slot(0).unwrap().version, slots::Version(u16::MAX));

    assert!(slots.freelist_head().is_none());
    assert_eq!(slots.slot(0).unwrap().payload, Payload::Dead);

    // The generic slot storage of the registry.
    let mut slots = Slots::<i32>::new();
    for _ in 1..(u16::MAX - 1) {
        let id = slots.allocate(0).unwrap();
        slots.take(id);
    }
    assert_eq!(slots.slot(0).unwrap().version, slots::Version(u16::MAX - 1));

    let slot1 = slots.allocate(1).unwrap();
    assert_eq!(slots.slot(0).unwrap().version, slots::Version(u16::MAX - 1));
    slots.take(slot1);
    assert_eq!(slots.slot(0).unwrap().version, slots::Version(u16::MAX));
    assert!(slots.freelist_head().is_some());

    let slot2 = slots.allocate(2).unwrap();
    assert_eq!(slots.slot(0).unwrap().version, slots::Version(u16::MAX));
    slots.take(slot2);
    assert_eq!(slots.slot(0).unwrap().version, slots::Version(u16::MAX));

    assert!(slots.freelist_head().is_none());
    assert_eq!(slots.slot(0).unwrap().payload, slots::Payload::Dead);
}

#[test]
fn simple_storage_test() {
    let mut storage = ObjectStorage::new();

    let i0 = storage.store(0u128).unwrap();
    assert_eq!(*storage.get(i0), 0);
    let i1 = storage.store(1u128).unwrap();
    assert_eq!(*storage.get(i1), 1);
    let i2 = storage.store(2u128).unwrap();
    assert_eq!(*storage.get(i2), 2);
    let i3 = storage.store(3u128).unwrap();
    assert_eq!(*storage.get(i3), 3);
    let i4 = storage.store(4u128).unwrap();
    assert_eq!(*storage.get(i4), 4);

    storage.delete(i1);

    let i5 = storage.store(5u128).unwrap();
    assert_eq!(i5, i1);
    assert_eq!(*storage.get(i5), 5);

    // delete high-to-low
    storage.delete(i4);
    storage.delete(i3);
    storage.delete(i2);
    storage.delete(i5);
    storage.delete(i0);

    assert_eq!(storage.len(), 0);
}

#[test]
fn slot_ids_are_not_reused_after_take() {
    let mut slots = Slots::<u8>::new();
    let a = slots.allocate(1).unwrap();
    let b = slots.allocate(2).unwrap();
    assert_ne!(a, b);
    assert_eq!(slots.num_active(), 2);
    assert_eq!(slots.take(a), Some(1));
    assert_eq!(slots.take(a), None);
    assert_eq!(slots.num_active(), 1);
    let c = slots.allocate(3).unwrap();
    // The freed slot is reused at the next version.
    assert_eq!(c, slots::Id::new(slots::Index(0), slots::Version(2)));
    assert_eq!(slots.get(a), None);
    assert_eq!(slots.get(b), Some(2));
    assert_eq!(slots.get(c), Some(3));
}

#[test]
fn slot_storage_fills_up() {
    let mut slots = Slots::<u8>::new();
    for _ in 0..u16::MAX {
        assert!(slots.allocate(0).is_some());
    }
    assert_eq!(slots.num_slots(), u16::MAX as usize);
    assert_eq!(slots.allocate(0), None);
}

#[test]
fn object_storage_reuses_latest_deleted_first() {
    let mut storage = ObjectStorage::new();
    let a = storage.store(10u32).unwrap();
    let b = storage.store(20u32).unwrap();
    let c = storage.store(30u32).unwrap();
    storage.delete(a);
    storage.delete(b);
    // Most recently deleted first.
    assert_eq!(storage.store(40u32), Some(b));
    assert_eq!(storage.store(50u32), Some(a));
    assert_eq!(*storage.get(c), 30);
    *storage.get_mut(c) = 31;
    assert_eq!(*storage.get(c), 31);
    // Deleting the last entry shrinks the array.
    storage.delete(c);
    assert_eq!(storage.len(), 2);
    assert_eq!(storage.store(60u32), Some(RegistryObjectIndex(2)));
}

#[test]
fn item_ids_round_trip() {
    let id = ItemId::new(7, 9);
    assert_eq!(id.index(), 7);
    assert_eq!(id.version(), 9);
    let sid = ItemStorageId::new(SlotIndex(3), Version(4));
    assert_eq!(sid.index(), SlotIndex(3));
    assert_eq!(sid.version(), Version(4));
    let item = Item { item_type: ItemType::Unknown, value_index: Index(5) };
    assert_eq!(item.value_index, Index(5));
}

#[test]
fn item_slots_free_of_free_slot_is_no_op() {
    let mut slots = ItemSlots::new();
    let bogus = ItemStorageId::new(SlotIndex(0), Version(1));
    slots.free(bogus);
    assert_eq!(slots.get(bogus), None);
    assert_eq!(slots.freelist_head(), Some(slots::Index(0)));
    assert_eq!(slots.allocate(Type::Unknown, ObjectIndex(0)), Some(ItemStorageId::new(SlotIndex(0), Version(1))));
}

#[test]
fn data_store_free_of_free_slot_is_no_op() {
    let mut slots = SlotStorage::new();
    let bogus = ItemId::new(0, 1);
    slots.free(bogus);
    assert_eq!(slots.get(bogus), None);
    assert_eq!(slots.allocate(ItemType::Unknown, Index(7)), Some(ItemId::new(0, 1)));
}

#[test]
fn taken_id_stays_invalid_after_reuse() {
    let mut s: Slots<u32> = Slots::new();
    let a = s.allocate(10).unwrap();
    assert_eq!(s.take(a), Some(10));
    // The slot is reused at the next version; the old id names nothing.
    let b = s.allocate(20).unwrap();
    assert_eq!(b.index, a.index);
    assert_ne!(b.version, a.version);
    assert_eq!(s.get(a), None);
    assert_eq!(s.take(a), None);
    assert_eq!(s.get(b), Some(20));
    assert_eq!(s.num_active(), 1);
}
