//! The id, index and type tags of the item store.
use crate::registry::slot as slots;
use vstd::prelude::*;

verus! {

/// A unique identifier associated with an item stored in an item store. It
/// is 4 bytes long and 4-byte aligned.
#[derive(Clone, Copy, PartialEq, Eq, Debug)]
pub struct Id {
    pub(crate) index: SlotIndex,
    pub(crate) version: Version,
    pub(crate) align: [u32; 0],
}

/// Enumerates the types of data that an item store can hold. No guarantee is
/// made that storing an object of type `T` occupies only
/// `std::mem::size_of::<T>()` bytes.
#[derive(Clone, Copy, Debug, PartialEq, Eq, Structural)]
pub enum Type {
    Unknown,
    // 128-bit types
    Any,
    HeapStr,
    StaticStr,
    U128,
    I128,
    // 64-bit types
    VoidPtr,
    U64,
    I64,
    F64,
    // 32-bit types
    Char,
    U32,
    I32,
    F32,
    // 16-bit types
    U16,
    I16,
    F16,
    // 8-bit types
    I8,
    U8,
    Bool,
}

#[derive(Clone, Copy, PartialEq, Eq, Debug, Structural)]
pub struct SlotIndex(pub u16);

#[derive(Clone, Copy, PartialEq, Eq, Debug, Structural)]
pub struct ObjectIndex(pub u16);

#[derive(Clone, Copy, Debug, PartialEq, Eq, Structural)]
pub struct Version(pub u16);

impl Id {
    pub fn new(index: SlotIndex, version: Version) -> (r: Self)
        ensures
            r.spec_index() == index,
            r.spec_version() == version,
    {
        Id { index, version, align: [] }
    }

    pub closed spec fn spec_index(self) -> SlotIndex {
        self.index
    }

    pub closed spec fn spec_version(self) -> Version {
        self.version
    }

    pub fn index(&self) -> (r: SlotIndex)
        ensures
            r == self.spec_index(),
    {
        self.index
    }

    pub fn version(&self) -> (r: Version)
        ensures
            r == self.spec_version(),
    {
        self.version
    }

    /// The slot allocator's id for the same slot and version.
    pub open spec fn to_slot_id(self) -> slots::Id {
        slots::Id::spec_new(slots::Index(self.spec_index().0), slots::Version(self.spec_version().0))
    }

    pub(crate) fn to_slot_id_exec(&self) -> (r: slots::Id)
        ensures
            r == self.to_slot_id(),
    {
        slots::Id::new(slots::Index(self.index.0), slots::Version(self.version.0))
    }

    pub(crate) fn from_slot_id(id: slots::Id) -> (r: Self)
        ensures
            r.to_slot_id() == id,
    {
        let r = Id { index: SlotIndex(id.index.0), version: Version(id.version.0), align: [] };
        proof {
            slots::Id::lemma_eq(r.to_slot_id(), id);
        }
        r
    }
}

} // verus!
