//! A generational slot allocator.
//!
//! Every value lives in a slot addressed by an [`Id`], which pairs the slot's
//! index with the slot's version at the time of allocation. Freeing a value
//! bumps the slot's version, so stale ids stop resolving; a slot whose version
//! cannot be bumped any more is retired for good. Free slots form a singly
//! linked list threaded through the slots themselves.
use vstd::prelude::*;
use vstd::set_lib::{lemma_int_range, lemma_len_subset, set_int_range};

verus! {

/// The most slots a storage ever holds: every index is a `u16` below
/// `u16::MAX`.
pub open spec fn max_slots() -> nat {
    u16::MAX as nat
}

/// The version of a slot.
#[derive(Clone, Copy, Debug, PartialEq, Eq, Structural)]
pub struct Version(pub u16);

/// The index of a slot.
#[derive(Clone, Copy, Debug, PartialEq, Eq, Structural)]
pub struct Index(pub u16);

/// Identifies a value stored in a [`Storage`]. It is 4 bytes long and
/// 4-byte aligned.
#[derive(Clone, Copy, Debug, PartialEq, Eq)]
pub struct Id {
    pub index: Index,
    pub version: Version,
    /// Raises the alignment to that of a `u32`.
    pub align: [u32; 0],
}

/// The one value of the alignment field.
pub open spec fn no_align() -> [u32; 0] {
    arbitrary()
}

impl Id {
    /// Ids are equal when they name the same slot at the same version.
    pub proof fn lemma_eq(a: Id, b: Id)
        requires
            a.index == b.index,
            a.version == b.version,
        ensures
            a == b,
    {
        assert(a.align@ =~= b.align@);
        assert(a.align == b.align);
    }

    /// The id of slot `index` at `version`.
    pub open spec fn spec_new(index: Index, version: Version) -> Id {
        Id { index, version, align: no_align() }
    }

    pub fn new(index: Index, version: Version) -> (r: Id)
        ensures
            r == Id::spec_new(index, version),
    {
        let align: [u32; 0] = [];
        assert(align@ =~= no_align()@);
        assert(align == no_align());
        Id { index, version, align }
    }
}

/// What a slot holds.
#[derive(Clone, Copy, Debug, PartialEq, Eq)]
pub enum Payload<T: Copy> {
    /// A live value.
    Active(T),
    /// A free slot, linked to the next free one.
    Free { next_free: Option<Index> },
    /// A slot whose version is exhausted; it is never handed out again.
    Dead,
}

/// A slot: its version and its payload.
#[derive(Clone, Copy, Debug, PartialEq, Eq)]
pub struct Slot<T: Copy> {
    pub version: Version,
    pub payload: Payload<T>,
}

/// The abstract state of a [`Storage`]: its slots, the head of its free
/// list and the number of slots that are not free.
pub struct SlotModel<T: Copy> {
    pub slots: Seq<Slot<T>>,
    pub freelist_head: Option<Index>,
    pub num_allocated: nat,
}

impl<T: Copy> SlotModel<T> {
    /// The value that `id` resolves to, if any.
    pub open spec fn get(self, id: Id) -> Option<T> {
        let i = id.index.0 as int;
        if i < self.slots.len() && self.slots[i].payload is Active && self.slots[i].version
            == id.version {
            Some(self.slots[i].payload->Active_0)
        } else {
            None
        }
    }

    /// Whether `id` names an existing slot at its current version.
    pub open spec fn is_valid(self, id: Id) -> bool {
        let i = id.index.0 as int;
        i < self.slots.len() && self.slots[i].version == id.version
    }

    /// The effect of allocating `data`: the new state and the id handed out.
    pub open spec fn allocate(self, data: T) -> (Self, Option<Id>) {
        match self.freelist_head {
            Some(index) => {
                let i = index.0 as int;
                let slot = self.slots[i];
                (
                    SlotModel {
                        slots: self.slots.update(
                            i,
                            Slot { version: slot.version, payload: Payload::Active(data) },
                        ),
                        freelist_head: slot.payload->next_free,
                        num_allocated: self.num_allocated + 1,
                    },
                    Some(Id::spec_new(index, slot.version)),
                )
            },
            None => if self.slots.len() < max_slots() {
                (
                    SlotModel {
                        slots: self.slots.push(
                            Slot { version: Version(0), payload: Payload::Active(data) },
                        ),
                        freelist_head: None,
                        num_allocated: self.num_allocated + 1,
                    },
                    Some(Id::spec_new(Index(self.slots.len() as u16), Version(0))),
                )
            } else {
                (self, None)
            },
        }
    }

    /// The effect of taking the value that `id` names out of the storage:
    /// the new state and the value taken.
    pub open spec fn take(self, id: Id) -> (Self, Option<T>) {
        let i = id.index.0 as int;
        match self.get(id) {
            Some(data) => if self.slots[i].version.0 < u16::MAX {
                (
                    SlotModel {
                        slots: self.slots.update(
                            i,
                            Slot {
                                version: Version((self.slots[i].version.0 + 1) as u16),
                                payload: Payload::Free { next_free: self.freelist_head },
                            },
                        ),
                        freelist_head: Some(id.index),
                        num_allocated: (self.num_allocated - 1) as nat,
                    },
                    Some(data),
                )
            } else {
                (
                    SlotModel {
                        slots: self.slots.update(
                            i,
                            Slot { version: self.slots[i].version, payload: Payload::Dead },
                        ),
                        freelist_head: self.freelist_head,
                        num_allocated: self.num_allocated,
                    },
                    Some(data),
                )
            },
            None => (self, None),
        }
    }

    /// Whether `id` can never be handed out again: its slot has moved past
    /// its version, or is at its version without being free.
    pub open spec fn spent(self, id: Id) -> bool {
        let i = id.index.0 as int;
        i < self.slots.len() && (self.slots[i].version.0 > id.version.0 || (self.slots[i].version
            == id.version && !(self.slots[i].payload is Free)))
    }

    /// Whether `id` will never name a value again: its slot has moved past
    /// its version, or was retired at its version.
    pub open spec fn retired(self, id: Id) -> bool {
        let i = id.index.0 as int;
        i < self.slots.len() && (self.slots[i].version.0 > id.version.0 || (self.slots[i].version
            == id.version && self.slots[i].payload is Dead))
    }

    /// The positions of the slots that are not free: live or retired.
    pub open spec fn not_free(self) -> Set<int> {
        Set::new(|j: int| 0 <= j < self.slots.len() && !(self.slots[j].payload is Free))
    }

    /// The positions of the slots that hold a value.
    pub open spec fn live_slots(self) -> Set<int> {
        Set::new(|j: int| 0 <= j < self.slots.len() && self.slots[j].payload is Active)
    }

    /// The positions of the slots retired at the last version.
    pub open spec fn retired_slots(self) -> Set<int> {
        Set::new(|j: int| 0 <= j < self.slots.len() && self.slots[j].payload is Dead)
    }

    /// The ids that name a value.
    pub open spec fn live_ids(self) -> Set<Id> {
        Set::new(|id: Id| self.get(id) is Some)
    }

    /// The id that names the value of slot `j`.
    pub open spec fn id_at(self, j: int) -> Id {
        Id::spec_new(Index(j as u16), self.slots[j].version)
    }

    /// What every reachable state satisfies: the free-list head names a free
    /// slot, and the slot count stays within `u16` indices.
    pub open spec fn wf(self) -> bool {
        &&& self.slots.len() <= max_slots()
        &&& self.num_allocated <= self.slots.len()
        &&& match self.freelist_head {
            Some(index) => index.0 < self.slots.len() && self.slots[index.0 as int].payload is Free,
            None => true,
        }
    }
}

/// The position after `i` in the free list `fl`, as a slot link.
spec fn next_of(fl: Seq<int>, i: int) -> Option<Index> {
    if i + 1 < fl.len() {
        Some(Index(fl[i + 1] as u16))
    } else {
        None
    }
}

/// The head of the free list `fl`, as a slot link.
spec fn head_of(fl: Seq<int>) -> Option<Index> {
    if fl.len() > 0 {
        Some(Index(fl[0] as u16))
    } else {
        None
    }
}

/// Stores `Copy` values in versioned slots.
pub struct Storage<T: Copy> {
    slots: Vec<Slot<T>>,
    freelist_head: Option<Index>,
    num_allocated: usize,
    /// The free slots' indices, in list order from the head.
    free_list: Ghost<Seq<int>>,
}

impl<T: Copy> View for Storage<T> {
    type V = SlotModel<T>;

    closed spec fn view(&self) -> SlotModel<T> {
        SlotModel {
            slots: self.slots@,
            freelist_head: self.freelist_head,
            num_allocated: self.num_allocated as nat,
        }
    }
}

/// A duplicate-free list of indices below `n` that misses `k < n` is shorter
/// than `n`.
pub(crate) proof fn lemma_free_list_shorter(fl: Seq<int>, n: int, k: int)
    requires
        fl.no_duplicates(),
        forall|i: int| 0 <= i < fl.len() ==> 0 <= #[trigger] fl[i] < n && fl[i] != k,
        0 <= k < n,
    ensures
        fl.len() < n,
{
    fl.unique_seq_to_set();
    lemma_int_range(0, n);
    let range = set_int_range(0, n).remove(k);
    assert forall|x: int| fl.to_set().contains(x) implies range.contains(x) by {
        let i = choose|i: int| 0 <= i < fl.len() && fl[i] == x;
    }
    lemma_len_subset(fl.to_set(), range);
}

impl<T: Copy> Storage<T> {
    /// The internal invariant: the ghost free list is exactly the chain of
    /// free slots from the head, without repeats, and every non-free slot is
    /// counted as allocated.
    pub closed spec fn wf(&self) -> bool {
        let s = self.slots@;
        let fl = self.free_list@;
        &&& s.len() <= max_slots()
        &&& fl.no_duplicates()
        &&& forall|i: int| 0 <= i < fl.len() ==> 0 <= #[trigger] fl[i] < s.len()
        &&& forall|i: int|
            0 <= i < fl.len() ==> s[#[trigger] fl[i]].payload == Payload::<T>::Free {
                next_free: next_of(fl, i),
            }
        &&& forall|j: int| 0 <= j < s.len() && (#[trigger] s[j]).payload is Free ==> fl.contains(j)
        &&& self.freelist_head == head_of(fl)
        &&& self.num_allocated + fl.len() == s.len()
    }

    /// The internal invariant implies the abstract one.
    pub proof fn lemma_wf(&self)
        requires
            self.wf(),
        ensures
            self@.wf(),
    {
        let fl = self.free_list@;
        if fl.len() > 0 {
            assert(self.slots@[fl[0]].payload is Free);
        }
    }

    /// The free list holds every free slot: there is no head exactly when no
    /// slot is free, and the count of allocated slots is the number of slots
    /// that are not free.
    pub proof fn lemma_free_slots(&self)
        requires
            self.wf(),
        ensures
            self@.freelist_head is None <==> forall|j: int|
                0 <= j < self@.slots.len() ==> !(#[trigger] self@.slots[j].payload is Free),
            self@.not_free().finite(),
            self@.num_allocated == self@.not_free().len(),
    {
        let s = self.slots@;
        let fl = self.free_list@;
        if fl.len() > 0 {
            assert(s[fl[0]].payload is Free);
        } else {
            assert forall|j: int| 0 <= j < s.len() implies !(#[trigger] s[j].payload is Free) by {
                if s[j].payload is Free {
                    assert(fl.contains(j));
                }
            }
        }
        let range = set_int_range(0, s.len() as int);
        lemma_int_range(0, s.len() as int);
        fl.unique_seq_to_set();
        let free = fl.to_set();
        assert forall|x: int| free.contains(x) implies range.contains(x) by {
            let i = choose|i: int| 0 <= i < fl.len() && fl[i] == x;
        }
        lemma_len_subset(free, range);
        let nf = self@.not_free();
        assert(nf =~= range.difference(free)) by {
            assert forall|x: int| nf.contains(x) implies range.difference(free).contains(x) by {
                if free.contains(x) {
                    let i = choose|i: int| 0 <= i < fl.len() && fl[i] == x;
                    assert(s[fl[i]].payload is Free);
                }
            }
            assert forall|x: int| range.difference(free).contains(x) implies nf.contains(x) by {
                if s[x].payload is Free {
                    assert(fl.contains(x));
                }
            }
        }
        lemma_len_subset(nf, range);
        assert(range =~= nf + free);
        assert(nf.disjoint(free));
        vstd::set_lib::lemma_set_disjoint_lens(nf, free);
    }

    /// The count of allocated slots is the number of ids that name a value
    /// plus the number of retired slots; without retired slots it is the
    /// number of ids that name a value. Each slot that holds a value is
    /// named by exactly one id.
    pub proof fn lemma_count_live(&self)
        requires
            self.wf(),
        ensures
            self@.live_ids().finite(),
            self@.live_ids().len() == self@.live_slots().len(),
            self@.retired_slots().finite(),
            self@.num_allocated == self@.live_ids().len() + self@.retired_slots().len(),
    {
        let m = self@;
        self.lemma_free_slots();
        let range = set_int_range(0, m.slots.len() as int);
        lemma_int_range(0, m.slots.len() as int);
        let live = m.live_slots();
        let dead = m.retired_slots();
        assert(live.subset_of(range));
        assert(dead.subset_of(range));
        lemma_len_subset(live, range);
        lemma_len_subset(dead, range);
        assert(m.not_free() =~= live + dead);
        assert(live.disjoint(dead));
        vstd::set_lib::lemma_set_disjoint_lens(live, dead);
        let f = |j: int| m.id_at(j);
        assert forall|a: int, b: int| live.contains(a) && live.contains(b) && #[trigger] f(a) == #[trigger] f(b)
            implies a == b by {
            assert(f(a).index == Index(a as u16));
            assert(f(b).index == Index(b as u16));
        }
        assert(live.map(f) =~= m.live_ids()) by {
            assert forall|id: Id| #[trigger] m.live_ids().contains(id) implies live.map(f).contains(id) by {
                let j = id.index.0 as int;
                assert(live.contains(j));
                Id::lemma_eq(f(j), id);
                assert(f(j) == id);
            }
            assert forall|id: Id| #[trigger] live.map(f).contains(id) implies m.live_ids().contains(id) by {
                let j = choose|j: int| live.contains(j) && f(j) == id;
                assert(m.get(f(j)) is Some);
            }
        }
        vstd::set_lib::lemma_map_size(live, m.live_ids(), f);
    }

    /// Initializes a storage with one free slot at version 1.
    pub fn new() -> (r: Self)
        ensures
            r.wf(),
            r@.slots == seq![Slot::<T> { version: Version(1), payload: Payload::Free { next_free: None } }],
            r@.freelist_head == Some(Index(0)),
            r@.num_allocated == 0,
    {
        let mut slots = Vec::new();
        slots.push(Slot { version: Version(1), payload: Payload::Free { next_free: None } });
        let ghost fl: Seq<int> = seq![0int];
        let r = Self {
            slots,
            freelist_head: Some(Index(0)),
            num_allocated: 0,
            free_list: Ghost(fl),
        };
        assert(r.slots@ =~= seq![Slot::<T> { version: Version(1), payload: Payload::Free { next_free: None } }]);
        r
    }

    /// Retrieves the value that `id` names. Returns `None` if the slot does
    /// not exist, holds no value, or has moved on to another version.
    pub fn get(&self, id: Id) -> (r: Option<T>)
        ensures
            r == self@.get(id),
    {
        let i = id.index.0 as usize;
        if i < self.slots.len() {
            let slot = self.slots[i];
            match slot.payload {
                Payload::Active(data) => {
                    if slot.version.0 == id.version.0 {
                        Some(data)
                    } else {
                        None
                    }
                },
                _ => None,
            }
        } else {
            None
        }
    }

    /// Whether `id` names an existing slot at its current version.
    pub fn is_valid(&self, id: Id) -> (r: bool)
        ensures
            r == self@.is_valid(id),
    {
        self.slots.len() > id.index.0 as usize && self.slots[id.index.0 as usize].version.0
            == id.version.0
    }

    /// The number of slots that are not free.
    pub fn num_active(&self) -> (r: usize)
        ensures
            r == self@.num_allocated,
    {
        self.num_allocated
    }

    /// The number of slots, free or not.
    pub fn num_slots(&self) -> (r: usize)
        ensures
            r == self@.slots.len(),
    {
        self.slots.len()
    }

    /// The head of the free list.
    pub fn freelist_head(&self) -> (r: Option<Index>)
        ensures
            r == self@.freelist_head,
    {
        self.freelist_head
    }

    /// A copy of the slot at `index`, if there is one.
    pub fn slot(&self, index: usize) -> (r: Option<Slot<T>>)
        ensures
            r == if index < self@.slots.len() {
                Some(self@.slots[index as int])
            } else {
                None
            },
    {
        if index < self.slots.len() {
            Some(self.slots[index])
        } else {
            None
        }
    }

    /// Stores `data` in the head of the free list, or in a new slot at
    /// version 0 when the list is empty. Returns `None` when no slot is free
    /// and all `u16::MAX` slots exist.
    pub fn allocate(&mut self, data: T) -> (r: Option<Id>)
        requires
            old(self).wf(),
        ensures
            final(self).wf(),
            (final(self)@, r) == old(self)@.allocate(data),
    {
        match self.freelist_head {
            Some(index) => {
                let i = index.0 as usize;
                let ghost fl = self.free_list@;
                assert(self.slots@[fl[0]].payload is Free);
                let slot = self.slots[i];
                match slot.payload {
                    Payload::Free { next_free } => {
                        self.freelist_head = next_free;
                        self.slots.set(
                            i,
                            Slot { version: slot.version, payload: Payload::Active(data) },
                        );
                        self.num_allocated = self.num_allocated + 1;
                        proof {
                            let nfl = fl.drop_first();
                            assert forall|k: int| 0 <= k < nfl.len() implies self.slots@[
                                #[trigger] nfl[k]].payload == Payload::<T>::Free {
                                next_free: next_of(nfl, k),
                            } by {
                                assert(nfl[k] == fl[k + 1]);
                                assert(fl[k + 1] != fl[0]);
                            }
                            assert forall|j: int|
                                0 <= j < self.slots@.len() && (
                                #[trigger] self.slots@[j]).payload is Free implies nfl.contains(
                                j,
                            ) by {
                                assert(j != fl[0]);
                                assert(fl.contains(j));
                                let k = choose|k: int| 0 <= k < fl.len() && fl[k] == j;
                                assert(nfl[k - 1] == j);
                            }
                            self.free_list = Ghost(nfl);
                        }
                        Some(Id::new(index, slot.version))
                    },
                    _ => { None },
                }
            },
            None => {
                if self.slots.len() < 65535 {
                    let index = self.slots.len() as u16;
                    self.slots.push(Slot { version: Version(0), payload: Payload::Active(data) });
                    self.num_allocated = self.num_allocated + 1;
                    proof {
                        let fl = self.free_list@;
                        assert forall|k: int| 0 <= k < fl.len() implies self.slots@[
                            #[trigger] fl[k]].payload == Payload::<T>::Free {
                            next_free: next_of(fl, k),
                        } by {
                            assert(fl[k] < self.slots@.len() - 1);
                        }
                    }
                    Some(Id::new(Index(index), Version(0)))
                } else {
                    None
                }
            },
        }
    }

    /// Removes the value that `id` names and returns it. The slot's version
    /// is bumped and the slot goes to the head of the free list; a slot
    /// already at version `u16::MAX` is retired instead. Returns `None`, and
    /// changes nothing, when `id` names no value.
    pub fn take(&mut self, id: Id) -> (r: Option<T>)
        requires
            old(self).wf(),
        ensures
            final(self).wf(),
            (final(self)@, r) == old(self)@.take(id),
    {
        let i = id.index.0 as usize;
        if i < self.slots.len() {
            let slot = self.slots[i];
            if id.version.0 != slot.version.0 {
                return None;
            }
            match slot.payload {
                Payload::Active(data) => {
                    let ghost fl = self.free_list@;
                    if slot.version.0 < u16::MAX {
                        proof {
                            assert forall|k: int| 0 <= k < fl.len() implies 0 <= #[trigger] fl[k]
                                < self.slots@.len() && fl[k] != i as int by {
                                if fl[k] == i as int {
                                    assert(self.slots@[fl[k]].payload is Free);
                                }
                            }
                            lemma_free_list_shorter(fl, self.slots@.len() as int, i as int);
                        }
                        self.slots.set(
                            i,
                            Slot {
                                version: Version(slot.version.0 + 1),
                                payload: Payload::Free { next_free: self.freelist_head },
                            },
                        );
                        self.freelist_head = Some(id.index);
                        self.num_allocated = self.num_allocated - 1;
                        proof {
                            let nfl = seq![i as int] + fl;
                            assert forall|a: int, b: int|
                                0 <= a < nfl.len() && 0 <= b < nfl.len() && a != b implies nfl[a]
                                != nfl[b] by {
                                if a > 0 && b > 0 {
                                    assert(nfl[a] == fl[a - 1] && nfl[b] == fl[b - 1]);
                                }
                                if a == 0 && b > 0 {
                                    assert(nfl[b] == fl[b - 1]);
                                }
                                if b == 0 && a > 0 {
                                    assert(nfl[a] == fl[a - 1]);
                                }
                            }
                            assert forall|k: int| 0 <= k < nfl.len() implies self.slots@[
                                #[trigger] nfl[k]].payload == Payload::<T>::Free {
                                next_free: next_of(nfl, k),
                            } by {
                                if k > 0 {
                                    assert(nfl[k] == fl[k - 1]);
                                }
                            }
                            assert forall|j: int|
                                0 <= j < self.slots@.len() && (
                                #[trigger] self.slots@[j]).payload is Free implies nfl.contains(
                                j,
                            ) by {
                                if j != i as int {
                                    assert(fl.contains(j));
                                    let k = choose|k: int| 0 <= k < fl.len() && fl[k] == j;
                                    assert(nfl[k + 1] == j);
                                } else {
                                    assert(nfl[0] == j);
                                }
                            }
                            assert forall|k: int| 0 <= k < nfl.len() implies 0 <= #[trigger] nfl[k]
                                < self.slots@.len() by {
                                if k > 0 {
                                    assert(nfl[k] == fl[k - 1]);
                                }
                            }
                            self.free_list = Ghost(nfl);
                        }
                    } else {
                        self.slots.set(i, Slot { version: slot.version, payload: Payload::Dead });
                        proof {
                            assert forall|k: int| 0 <= k < fl.len() implies self.slots@[
                                #[trigger] fl[k]].payload == Payload::<T>::Free {
                                next_free: next_of(fl, k),
                            } by {
                                if fl[k] == i as int {
                                    assert(old(self).slots@[fl[k]].payload is Free);
                                }
                            }
                        }
                    }
                    Some(data)
                },
                _ => None,
            }
        } else {
            None
        }
    }
}

/// A freshly allocated id resolves to the allocated value.
pub proof fn lemma_get_after_allocate<T: Copy>(m: SlotModel<T>, data: T)
    requires
        m.wf(),
    ensures
        ({
            let (m2, r) = m.allocate(data);
            r matches Some(id) ==> m2.get(id) == Some(data) && m2.is_valid(id)
        }),
{
}

/// Allocation fails only when no slot is free and all `u16::MAX` slots exist.
pub proof fn lemma_allocate_fails_only_when_full<T: Copy>(m: SlotModel<T>, data: T)
    requires
        m.wf(),
    ensures
        m.allocate(data).1 is None <==> (m.freelist_head is None && m.slots.len()
            == max_slots()),
{
}

/// Allocation hands out an id that resolved to nothing before, and leaves the
/// value of every other id as it was.
pub proof fn lemma_allocate_preserves_others<T: Copy>(m: SlotModel<T>, data: T, other: Id)
    requires
        m.wf(),
        m.get(other) is Some,
    ensures
        m.allocate(data).0.get(other) == m.get(other),
        m.allocate(data).1 != Some(other),
{
}

/// Taking a value out gives back what was allocated, once: afterwards the id
/// resolves to nothing.
pub proof fn lemma_take_after_allocate<T: Copy>(m: SlotModel<T>, data: T)
    requires
        m.wf(),
    ensures
        ({
            let (m2, r) = m.allocate(data);
            r matches Some(id) ==> {
                &&& m2.take(id).1 == Some(data)
                &&& m2.take(id).0.get(id) is None
                &&& m2.take(id).0.take(id).1 is None
            }
        }),
{
}

/// Taking a value out invalidates its id, unless the slot was retired at the
/// last version, and leaves every other id resolving as before.
pub proof fn lemma_take_invalidates<T: Copy>(m: SlotModel<T>, id: Id, other: Id)
    requires
        m.get(id) is Some,
        other.index != id.index || other.version != id.version,
    ensures
        m.take(id).0.get(id) is None,
        m.slots[id.index.0 as int].version.0 < u16::MAX ==> !m.take(id).0.is_valid(id),
        m.take(id).0.get(other) == m.get(other),
{
}

/// Allocation hands out an id that was not spent, and spends it; ids that
/// were spent stay spent.
pub proof fn lemma_allocate_spends<T: Copy>(m: SlotModel<T>, data: T, other: Id)
    requires
        m.wf(),
    ensures
        m.allocate(data).1 matches Some(id) ==> m.allocate(data).0.spent(id) && !m.spent(id),
        m.spent(other) ==> m.allocate(data).0.spent(other),
{
}

/// Taking a value out leaves every spent id spent, and spends its own id.
pub proof fn lemma_take_spends<T: Copy>(m: SlotModel<T>, id: Id, other: Id)
    ensures
        m.spent(other) ==> m.take(id).0.spent(other),
        m.get(id) is Some ==> m.take(id).0.spent(id),
{
}

/// An id names a value only while it is valid.
pub proof fn lemma_get_implies_valid<T: Copy>(m: SlotModel<T>, id: Id)
    requires
        m.get(id) is Some,
    ensures
        m.is_valid(id),
{
}

/// Taking the value of an id out retires the id.
pub proof fn lemma_take_retires<T: Copy>(m: SlotModel<T>, id: Id)
    requires
        m.get(id) is Some,
    ensures
        m.take(id).0.retired(id),
{
}

/// Allocating keeps every retired id retired.
pub proof fn lemma_allocate_keeps_retired<T: Copy>(m: SlotModel<T>, data: T, id: Id)
    requires
        m.wf(),
        m.retired(id),
    ensures
        m.allocate(data).0.retired(id),
{
}

/// Taking any value out keeps every retired id retired.
pub proof fn lemma_take_keeps_retired<T: Copy>(m: SlotModel<T>, taken: Id, id: Id)
    requires
        m.retired(id),
    ensures
        m.take(taken).0.retired(id),
{
}

/// A retired id names no value: once the value of an id was taken out, the
/// id never names a value again, whatever is allocated or taken later.
pub proof fn lemma_retired_names_nothing<T: Copy>(m: SlotModel<T>, id: Id)
    requires
        m.retired(id),
    ensures
        m.get(id) is None,
        m.take(id).1 is None,
{
}

/// A storage that holds a live value has a positive count of allocated
/// slots.
pub proof fn lemma_live_value_counted<T: Copy>(s: &Storage<T>, id: Id)
    requires
        s.wf(),
        s@.get(id) is Some,
    ensures
        s@.num_allocated > 0,
{
    s.lemma_free_slots();
    assert(s@.not_free().contains(id.index.0 as int));
}

} // verus!
