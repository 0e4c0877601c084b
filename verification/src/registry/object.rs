//! Stores objects in a flat array addressed by [`ObjectIndex`]es. Deleted
//! objects are put on a free list and their places reused by later stores,
//! most recently deleted first; deleting the last object shrinks the array
//! instead.
//!
//! This design was made under the following assumptions:
//!
//! - Memory efficiency is very important.
//! - The position of an object should not move once allocated.
//! - It is more likely for an application to add items than to remove them.
//! - Programs typically enter a steady-state in terms of the number of objects.
//! - Minimal work should be done when `delete()` _is_ called.
use super::types::ObjectIndex;
use vstd::prelude::*;

verus! {

/// An entry of the array: a live object, or a link in the free list.
pub enum Object<T> {
    Live(T),
    Free { next_free: Option<ObjectIndex> },
}

/// The abstract state of a [`Storage`].
pub struct ObjectModel<T> {
    pub values: Seq<Object<T>>,
    pub free_list: Option<ObjectIndex>,
    pub num_free_objects: nat,
}

/// The most objects a storage holds: indices are `u16`s.
pub open spec fn max_objects() -> nat {
    u16::MAX as nat + 1
}

impl<T> ObjectModel<T> {
    /// Whether `index` addresses a live object.
    pub open spec fn is_live(self, index: ObjectIndex) -> bool {
        index.0 < self.values.len() && self.values[index.0 as int] is Live
    }

    /// The live object at `index`.
    pub open spec fn object(self, index: ObjectIndex) -> T {
        self.values[index.0 as int]->Live_0
    }

    /// The effect of storing `value`: the new state and its index.
    pub open spec fn store(self, value: T) -> (Self, Option<ObjectIndex>) {
        match self.free_list {
            Some(index) => (
                ObjectModel {
                    values: self.values.update(index.0 as int, Object::Live(value)),
                    free_list: self.values[index.0 as int]->next_free,
                    num_free_objects: (self.num_free_objects - 1) as nat,
                },
                Some(index),
            ),
            None => if self.values.len() < max_objects() {
                (
                    ObjectModel {
                        values: self.values.push(Object::Live(value)),
                        free_list: None,
                        num_free_objects: self.num_free_objects,
                    },
                    Some(ObjectIndex(self.values.len() as u16)),
                )
            } else {
                (self, None)
            },
        }
    }

    /// The state after the live object at `index` is replaced by `value`.
    pub open spec fn set_object(self, index: ObjectIndex, value: T) -> Self {
        ObjectModel { values: self.values.update(index.0 as int, Object::Live(value)), ..self }
    }

    /// Replacing a live object keeps the storage well formed.
    pub proof fn lemma_set_object_wf(self, index: ObjectIndex, value: T)
        requires
            self.wf(),
            self.is_live(index),
        ensures
            self.set_object(index, value).wf(),
    {
    }

    /// The effect of deleting the live object at `index`.
    pub open spec fn delete(self, index: ObjectIndex) -> Self {
        if index.0 + 1 == self.values.len() {
            ObjectModel {
                values: self.values.drop_last(),
                free_list: self.free_list,
                num_free_objects: self.num_free_objects,
            }
        } else {
            ObjectModel {
                values: self.values.update(
                    index.0 as int,
                    Object::Free { next_free: self.free_list },
                ),
                free_list: Some(index),
                num_free_objects: self.num_free_objects + 1,
            }
        }
    }

    /// The positions of the free entries.
    pub open spec fn free_entries(self) -> Set<int> {
        Set::new(|j: int| 0 <= j < self.values.len() && self.values[j] is Free)
    }

    /// What every reachable state satisfies: the free-list head addresses a
    /// free entry that is not the last one.
    pub open spec fn wf(self) -> bool {
        &&& self.values.len() <= max_objects()
        &&& match self.free_list {
            Some(index) => index.0 < self.values.len() && self.values[index.0 as int] is Free,
            None => true,
        }
    }
}

spec fn next_of(fl: Seq<int>, i: int) -> Option<ObjectIndex> {
    if i + 1 < fl.len() {
        Some(ObjectIndex(fl[i + 1] as u16))
    } else {
        None
    }
}

spec fn head_of(fl: Seq<int>) -> Option<ObjectIndex> {
    if fl.len() > 0 {
        Some(ObjectIndex(fl[0] as u16))
    } else {
        None
    }
}

/// `fl` lists, without repeats, exactly the free entries of `v`, each linked
/// to the next one in `fl`.
spec fn chain_ok<T>(v: Seq<Object<T>>, fl: Seq<int>) -> bool {
    &&& fl.no_duplicates()
    &&& forall|i: int| 0 <= i < fl.len() ==> 0 <= #[trigger] fl[i] < v.len()
    &&& forall|i: int|
        0 <= i < fl.len() ==> v[#[trigger] fl[i]] == Object::<T>::Free {
            next_free: next_of(fl, i),
        }
    &&& forall|j: int| 0 <= j < v.len() && (#[trigger] v[j]) is Free ==> fl.contains(j)
}

/// Freeing the live entry `i` and linking it in front of the list keeps the
/// chain intact.
proof fn lemma_chain_push_front<T>(v: Seq<Object<T>>, fl: Seq<int>, i: int)
    requires
        chain_ok(v, fl),
        0 <= i < v.len(),
        v[i] is Live,
        i <= u16::MAX,
        forall|k: int| 0 <= k < fl.len() ==> 0 <= #[trigger] fl[k] <= u16::MAX,
    ensures
        chain_ok(v.update(i, Object::Free { next_free: head_of(fl) }), seq![i] + fl),
{
    let nv = v.update(i, Object::Free { next_free: head_of(fl) });
    let nfl = seq![i] + fl;
    assert forall|k: int| 0 <= k < fl.len() implies #[trigger] fl[k] != i by {
        if fl[k] == i {
            assert(v[fl[k]] is Free);
        }
    }
    assert forall|a: int, b: int|
        0 <= a < nfl.len() && 0 <= b < nfl.len() && a != b implies nfl[a] != nfl[b] by {
        if a > 0 {
            assert(nfl[a] == fl[a - 1]);
        }
        if b > 0 {
            assert(nfl[b] == fl[b - 1]);
        }
    }
    assert forall|k: int| 0 <= k < nfl.len() implies nv[#[trigger] nfl[k]] == Object::<T>::Free {
        next_free: next_of(nfl, k),
    } by {
        if k > 0 {
            assert(nfl[k] == fl[k - 1]);
        }
    }
    assert forall|j: int| 0 <= j < nv.len() && (#[trigger] nv[j]) is Free implies nfl.contains(j) by {
        if j != i {
            assert(fl.contains(j));
            let k = choose|k: int| 0 <= k < fl.len() && fl[k] == j;
            assert(nfl[k + 1] == j);
        } else {
            assert(nfl[0] == j);
        }
    }
    assert forall|k: int| 0 <= k < nfl.len() implies 0 <= #[trigger] nfl[k] < nv.len() by {
        if k > 0 {
            assert(nfl[k] == fl[k - 1]);
        }
    }
}

/// Stores objects in a flat array with a free list.
pub struct Storage<T> {
    values: Vec<Object<T>>,
    free_list: Option<ObjectIndex>,
    num_free_objects: usize,
    /// The free entries' indices, in list order from the head.
    free_indices: Ghost<Seq<int>>,
}

impl<T> View for Storage<T> {
    type V = ObjectModel<T>;

    closed spec fn view(&self) -> ObjectModel<T> {
        ObjectModel {
            values: self.values@,
            free_list: self.free_list,
            num_free_objects: self.num_free_objects as nat,
        }
    }
}

impl<T> Storage<T> {
    /// The internal invariant: the ghost list is exactly the chain of free
    /// entries from the head, without repeats, and it counts them.
    pub closed spec fn wf(&self) -> bool {
        let fl = self.free_indices@;
        &&& self.values@.len() <= max_objects()
        &&& chain_ok(self.values@, fl)
        &&& self.free_list == head_of(fl)
        &&& self.num_free_objects == fl.len()
    }

    /// The internal invariant implies the abstract one.
    pub proof fn lemma_wf(&self)
        requires
            self.wf(),
        ensures
            self@.wf(),
    {
        let fl = self.free_indices@;
        if fl.len() > 0 {
            assert(self.values@[fl[0]] is Free);
        }
    }

    /// The free list holds every free entry: there is no head exactly when
    /// no entry is free, the head's link names a free entry or nothing, and
    /// the count of free objects is the number of free entries.
    pub proof fn lemma_free_entries(&self)
        requires
            self.wf(),
        ensures
            self@.free_list is None <==> forall|j: int|
                0 <= j < self@.values.len() ==> !(#[trigger] self@.values[j] is Free),
            self@.free_list matches Some(h) ==> (self@.values[h.0 as int]->next_free matches Some(n)
                ==> n.0 < self@.values.len() && self@.values[n.0 as int] is Free),
            self@.free_entries().finite(),
            self@.num_free_objects == self@.free_entries().len(),
    {
        let v = self.values@;
        let fl = self.free_indices@;
        if fl.len() > 0 {
            assert(v[fl[0]] is Free);
            if fl.len() > 1 {
                assert(v[fl[1]] is Free);
            }
        } else {
            assert forall|j: int| 0 <= j < v.len() implies !(#[trigger] v[j] is Free) by {
                if v[j] is Free {
                    assert(fl.contains(j));
                }
            }
        }
        fl.unique_seq_to_set();
        let fe = self@.free_entries();
        assert(fl.to_set() =~= fe) by {
            assert forall|x: int| fl.to_set().contains(x) implies fe.contains(x) by {
                let i = choose|i: int| 0 <= i < fl.len() && fl[i] == x;
                assert(v[fl[i]] is Free);
            }
        }
    }

    pub fn new() -> (r: Self)
        ensures
            r.wf(),
            r@.values.len() == 0,
            r@.free_list is None,
            r@.num_free_objects == 0,
    {
        Storage {
            values: Vec::new(),
            free_list: None,
            num_free_objects: 0,
            free_indices: Ghost(Seq::empty()),
        }
    }

    /// The number of entries in the array, live or free.
    pub fn len(&self) -> (r: usize)
        ensures
            r == self@.values.len(),
    {
        self.values.len()
    }

    /// The object at `index`, which must be live.
    pub fn get(&self, index: ObjectIndex) -> (r: &T)
        requires
            self@.is_live(index),
        ensures
            *r == self@.object(index),
    {
        match &self.values[index.0 as usize] {
            Object::Live(value) => value,
            Object::Free { .. } => vstd::pervasive::unreached(),
        }
    }

    /// A mutable reference to the object at `index`, which must be live.
    pub fn get_mut(&mut self, index: ObjectIndex) -> (r: &mut T)
        requires
            old(self).wf(),
            old(self)@.is_live(index),
        ensures
            *r == old(self)@.object(index),
            final(self)@ == old(self)@.set_object(index, *final(r)),
            final(self).wf(),
    {
        match &mut self.values[index.0 as usize] {
            Object::Live(value) => value,
            Object::Free { .. } => vstd::pervasive::unreached(),
        }
    }

    /// Stores `value` in the most recently freed entry, or appends it.
    /// Returns `None` when no entry is free and the array holds `u16::MAX + 1`
    /// entries.
    pub fn store(&mut self, value: T) -> (r: Option<ObjectIndex>)
        requires
            old(self).wf(),
        ensures
            final(self).wf(),
            (final(self)@, r) == old(self)@.store(value),
    {
        match self.free_list {
            Some(index) => {
                let i = index.0 as usize;
                let ghost fl = self.free_indices@;
                assert(self.values@[fl[0]] is Free);
                let next = match &self.values[i] {
                    Object::Free { next_free } => *next_free,
                    Object::Live(_) => None,
                };
                self.free_list = next;
                self.values.set(i, Object::Live(value));
                self.num_free_objects = self.num_free_objects - 1;
                proof {
                    let nfl = fl.drop_first();
                    assert forall|k: int| 0 <= k < nfl.len() implies self.values@[
                        #[trigger] nfl[k]] == Object::<T>::Free { next_free: next_of(nfl, k) } by {
                        assert(nfl[k] == fl[k + 1]);
                        assert(fl[k + 1] != fl[0]);
                    }
                    assert forall|j: int|
                        0 <= j < self.values@.len() && (
                        #[trigger] self.values@[j]) is Free implies nfl.contains(j) by {
                        assert(j != fl[0]);
                        assert(fl.contains(j));
                        let k = choose|k: int| 0 <= k < fl.len() && fl[k] == j;
                        assert(nfl[k - 1] == j);
                    }
                    self.free_indices = Ghost(nfl);
                }
                Some(index)
            },
            None => {
                if self.values.len() <= 65535 {
                    let index = self.values.len() as u16;
                    self.values.push(Object::Live(value));
                    proof {
                        let fl = self.free_indices@;
                        assert forall|k: int| 0 <= k < fl.len() implies self.values@[
                            #[trigger] fl[k]] == Object::<T>::Free {
                            next_free: next_of(fl, k),
                        } by {
                            assert(fl[k] < self.values@.len() - 1);
                        }
                    }
                    Some(ObjectIndex(index))
                } else {
                    None
                }
            },
        }
    }

    /// Deletes the live object at `index`: the entry joins the head of the
    /// free list, or, if it is the last entry, the array shrinks by one.
    pub fn delete(&mut self, index: ObjectIndex)
        requires
            old(self).wf(),
            old(self)@.is_live(index),
        ensures
            final(self).wf(),
            final(self)@ == old(self)@.delete(index),
    {
        let i = index.0 as usize;
        let ghost fl = self.free_indices@;
        proof {
            assert forall|k: int| 0 <= k < fl.len() implies #[trigger] fl[k] != i as int by {
                if fl[k] == i as int {
                    assert(self.values@[fl[k]] is Free);
                }
            }
        }
        let is_last = i + 1 == self.values.len();
        if !is_last {
            proof {
                lemma_chain_push_front(self.values@, fl, i as int);
                super::slot::lemma_free_list_shorter(fl, self.values@.len() as int, i as int);
            }
            self.values.set(i, Object::Free { next_free: self.free_list });
            self.free_list = Some(index);
            self.num_free_objects = self.num_free_objects + 1;
            proof {
                self.free_indices = Ghost(seq![i as int] + fl);
            }
        } else {
            let len = self.values.len() - 1;
            self.values.truncate(len);
            proof {
                assert(self.values@ =~= old(self).values@.drop_last());
                assert forall|k: int| 0 <= k < fl.len() implies 0 <= #[trigger] fl[k]
                    < self.values@.len() by {
                    assert(fl[k] != i as int);
                }
            }
        }
    }
}

/// Reading the index that a store returns gives back the stored value.
pub proof fn lemma_get_after_store<T>(m: ObjectModel<T>, value: T)
    requires
        m.wf(),
    ensures
        ({
            let (m2, r) = m.store(value);
            r matches Some(index) ==> m2.is_live(index) && m2.object(index) == value
        }),
{
}

/// Storing leaves every live object where it was.
pub proof fn lemma_store_preserves_others<T>(m: ObjectModel<T>, value: T, other: ObjectIndex)
    requires
        m.wf(),
        m.is_live(other),
    ensures
        m.store(value).0.is_live(other),
        m.store(value).0.object(other) == m.object(other),
        m.store(value).1 != Some(other),
{
}

/// The place of a deleted object that was not the last one is the next to
/// be reused.
pub proof fn lemma_store_reuses_deleted<T>(m: ObjectModel<T>, index: ObjectIndex, value: T)
    requires
        m.wf(),
        m.is_live(index),
        index.0 + 1 != m.values.len(),
    ensures
        m.delete(index).store(value).1 == Some(index),
{
}

/// Deleting leaves every other live object where it was.
pub proof fn lemma_delete_preserves_others<T>(m: ObjectModel<T>, index: ObjectIndex, other: ObjectIndex)
    requires
        m.is_live(index),
        m.is_live(other),
        other != index,
    ensures
        m.delete(index).is_live(other),
        m.delete(index).object(other) == m.object(other),
        !m.delete(index).is_live(index),
{
}

} // verus!
