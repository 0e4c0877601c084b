//! A registry whose values are also found by name. A name is kept as the
//! hash of its text, which maps to the [`Id`] of the value.
use super::{
    Error as IndexedError, Id, Ops, Registry as IndexedRegistry, RegistryModel, RegistryObject,
    Type, Value,
};
use std::collections::hash_map::DefaultHasher;
use std::collections::HashMap;
use std::hash::{Hash, Hasher};
use vstd::prelude::*;
use vstd::std_specs::hash::DefaultHasherAdditionalSpecFns;
use super::types::debug_name;

verus! {

#[derive(Debug)]
pub enum Error<'a> {
    /// The provided ID is invalid, the item having either been deleted or
    /// never existed.
    InvalidId,
    /// Too many objects have been allocated. No Ids are available.
    TooManyObjects,
    /// The provided item name does not refer to an item in the registry.
    NameNotFound(&'a str),
    /// The name already exists, and a new value cannot be inserted.
    NameAlreadyExists(&'a str),
    /// The type of the stored item is not the same as the expected type.
    TypeMismatch { expected: Type, actual: Type },
}

/// The message that describes an error.
pub open spec fn error_message(e: Error) -> Seq<char> {
    match e {
        Error::InvalidId => "The provided ID is invalid, the item having either been deleted or never existed."@,
        Error::TooManyObjects => "Too many objects have been allocated. No Ids are available."@,
        Error::NameNotFound(_) => "The provided item name does not refer to an item in the registry."@,
        Error::NameAlreadyExists(_) => "The name already exists, and a new value cannot be inserted"@,
        Error::TypeMismatch { expected, actual } => "The type of the stored item ("@ + debug_name(actual)
            + ") is not hte same as the expected type ("@ + debug_name(expected) + ")"@,
    }
}

/// Appends `tail` to `s` through `String::push_str`, which std documents to
/// append the string slice onto the end of the string.
#[verifier::external_body]
fn push_str(s: &mut String, tail: &str)
    ensures
        final(s)@ == old(s)@ + tail@,
{
    s.push_str(tail)
}

impl<'a> Error<'a> {
    /// The message that describes the error.
    pub fn message(&self) -> (r: String)
        ensures
            r@ == error_message(*self),
    {
        match self {
            Error::InvalidId => "The provided ID is invalid, the item having either been deleted or never existed.".to_owned(),
            Error::TooManyObjects => "Too many objects have been allocated. No Ids are available.".to_owned(),
            Error::NameNotFound(_) => "The provided item name does not refer to an item in the registry.".to_owned(),
            Error::NameAlreadyExists(_) => "The name already exists, and a new value cannot be inserted".to_owned(),
            Error::TypeMismatch { expected, actual } => {
                let mut s = "The type of the stored item (".to_owned();
                push_str(&mut s, actual.name());
                push_str(&mut s, ") is not hte same as the expected type (");
                push_str(&mut s, expected.name());
                push_str(&mut s, ")");
                s
            },
        }
    }
}

/// The error of a named registry for an error of the registry it keeps its
/// values in.
pub open spec fn convert(err: IndexedError) -> Error<'static> {
    match err {
        IndexedError::OutOfIds => Error::TooManyObjects,
        IndexedError::InvalidId => Error::InvalidId,
        IndexedError::TypeMismatch { expected, actual } => Error::TypeMismatch { expected, actual },
    }
}

impl From<IndexedError> for Error<'static> {
    fn from(err: IndexedError) -> (r: Self) {
        match err {
            IndexedError::OutOfIds => Error::TooManyObjects,
            IndexedError::InvalidId => Error::InvalidId,
            IndexedError::TypeMismatch { expected, actual } => Error::TypeMismatch {
                expected,
                actual,
            },
        }
    }
}

impl vstd::std_specs::convert::FromSpecImpl<IndexedError> for Error<'static> {
    open spec fn obeys_from_spec() -> bool {
        true
    }

    open spec fn from_spec(err: IndexedError) -> Self {
        convert(err)
    }
}

/// What `str`'s `Hash` impl writes to a hasher for a string: the same
/// writes for the same text.
pub uninterp spec fn str_hash_input(name: Seq<char>) -> Seq<Seq<u8>>;

/// Feeds `name` to `state` through `str`'s `Hash::hash`. What it writes is
/// named by [`str_hash_input`]; std documents no more of it than that it
/// depends on the text alone.
#[verifier::external_body]
fn hash_str(name: &str, state: &mut DefaultHasher)
    ensures
        final(state)@ == old(state)@ + str_hash_input(name@),
{
    name.hash(state);
}

/// The key under which a name is kept: the digest of a fresh
/// `DefaultHasher` fed the name.
pub open spec fn name_key(name: Seq<char>) -> u64 {
    DefaultHasher::spec_finish(str_hash_input(name))
}

/// Hashes a name into the key it is kept under.
pub fn hash_name(name: &str) -> (r: u64)
    ensures
        r == name_key(name@),
{
    let mut state = DefaultHasher::new();
    hash_str(name, &mut state);
    proof {
        assert(Seq::<Seq<u8>>::empty() + str_hash_input(name@) =~= str_hash_input(name@));
    }
    state.finish()
}

/// The abstract state of a named [`Registry`]: the values and the keys of
/// the names.
pub struct NamedModel {
    pub values: RegistryModel,
    pub names: Map<u64, Id>,
}

impl NamedModel {
    /// The id that `name` maps to, if any.
    pub open spec fn id_of(self, name: Seq<char>) -> Option<Id> {
        if self.names.contains_key(name_key(name)) {
            Some(self.names[name_key(name)])
        } else {
            None
        }
    }

    /// The value that `name` names, if any.
    pub open spec fn lookup(self, name: Seq<char>) -> Option<Value> {
        match self.id_of(name) {
            Some(id) => self.values.lookup(id),
            None => None,
        }
    }

    /// The effect of setting `name` to `v`: `v` is inserted, and the value
    /// that `name` named before is removed.
    pub open spec fn set(self, name: Seq<char>, v: Value) -> (Self, Result<Id, Error<'static>>) {
        let (values, r) = self.values.insert(v);
        match r {
            Ok(id) => {
                let values = match self.id_of(name) {
                    Some(old_id) => values.remove(old_id).0,
                    None => values,
                };
                (NamedModel { values, names: self.names.insert(name_key(name), id) }, Ok(id))
            },
            Err(e) => (NamedModel { values, ..self }, Err(convert(e))),
        }
    }

    /// The effect of inserting `v` under a name that names nothing.
    pub open spec fn insert_new(self, name: Seq<char>, v: Value) -> (Self, Result<Id, Error<'static>>) {
        let (values, r) = self.values.insert(v);
        match r {
            Ok(id) => (NamedModel { values, names: self.names.insert(name_key(name), id) }, Ok(id)),
            Err(e) => (NamedModel { values, ..self }, Err(convert(e))),
        }
    }

    /// What every reachable state satisfies: the values are well formed,
    /// and every name maps to an id that was handed out.
    pub open spec fn wf(self) -> bool {
        &&& self.values.wf()
        &&& forall|k: u64| #[trigger] self.names.contains_key(k) ==> self.values.slots.spent(self.names[k])
    }
}

/// Setting a name and reading it back gives the value that was set; the
/// value that the name named before no longer resolves.
pub proof fn lemma_get_after_set(m: NamedModel, name: Seq<char>, v: Value)
    requires
        m.wf(),
    ensures
        m.set(name, v).1 matches Ok(id) ==> {
            &&& m.set(name, v).0.id_of(name) == Some(id)
            &&& m.set(name, v).0.lookup(name) == Some(v)
            &&& m.id_of(name) matches Some(old_id) ==> m.set(name, v).0.values.lookup(old_id) is None
        },
{
    let (values, r) = m.values.insert(v);
    if let Ok(id) = r {
        super::lemma_get_after_insert(m.values, v);
        super::lemma_insert_wf(m.values, v);
        super::lemma_insert_spends(m.values, v, id);
        if let Some(old_id) = m.id_of(name) {
            assert(m.names.contains_key(name_key(name)));
            assert(m.values.slots.spent(old_id));
            assert(old_id.index != id.index || old_id.version != id.version);
            super::lemma_remove_preserves_others(values, old_id, id);
            if values.lookup(old_id) is Some {
                super::lemma_remove_invalidates(values, old_id);
            }
        }
    }
}

/// Inserting under a new name and reading it back gives the inserted value.
pub proof fn lemma_get_after_insert_new(m: NamedModel, name: Seq<char>, v: Value)
    requires
        m.wf(),
        m.id_of(name) is None,
    ensures
        m.insert_new(name, v).1 matches Ok(id) ==> {
            &&& m.insert_new(name, v).0.id_of(name) == Some(id)
            &&& m.insert_new(name, v).0.lookup(name) == Some(v)
        },
{
    super::lemma_get_after_insert(m.values, v);
}

/// A registry of values that are found by name as well as by id.
pub struct Registry {
    indexed: IndexedRegistry,
    map: HashMap<u64, Id>,
}

impl View for Registry {
    type V = NamedModel;

    closed spec fn view(&self) -> NamedModel {
        NamedModel { values: self.indexed@, names: self.map@ }
    }
}

impl Registry {
    /// The internal invariant.
    pub closed spec fn wf(&self) -> bool {
        &&& self.indexed.wf()
        &&& self@.wf()
    }

    pub fn new() -> (r: Self)
        ensures
            r.wf(),
            r@.values == RegistryModel::initial(),
            r@.names == Map::<u64, Id>::empty(),
    {
        let r = Registry { indexed: IndexedRegistry::new(), map: HashMap::new() };
        proof {
            r.indexed.lemma_wf();
        }
        r
    }

    /// Removes the value that `name` names, and the name. Returns
    /// [`Error::NameNotFound`], and changes nothing, if the name is unknown.
    pub fn remove<'a>(&mut self, name: &'a str) -> (r: Result<(), Error<'a>>)
        requires
            old(self).wf(),
        ensures
            final(self).wf(),
            match old(self)@.id_of(name@) {
                Some(id) => {
                    &&& final(self)@.names == old(self)@.names.remove(name_key(name@))
                    &&& final(self)@.values == old(self)@.values.remove(id).0
                    &&& match old(self)@.values.remove(id).1 {
                        Ok(_) => r is Ok,
                        Err(e) => r == Err::<(), Error>(convert(e)),
                    }
                },
                None => r == Err::<(), Error<'a>>(Error::NameNotFound(name)) && final(self)@ == old(self)@,
            },
    {
        let key = hash_name(name);
        match self.map.remove(&key) {
            Some(id) => {
                proof {
                    self.indexed.lemma_wf();
                    assert forall|k: u64| #[trigger] self.map@.contains_key(k) implies self@.values.slots.spent(self.map@[k]) by {
                        super::lemma_remove_spends(old(self)@.values, id, self.map@[k]);
                        assert(old(self)@.names.contains_key(k));
                    }
                }
                match self.indexed.remove(id) {
                    Ok(()) => {
                        proof {
                            self.indexed.lemma_wf();
                        }
                        Ok(())
                    },
                    Err(e) => {
                        proof {
                            self.indexed.lemma_wf();
                        }
                        Err(Error::from(e))
                    },
                }
            },
            None => {
                proof {
                    assert(self.map@ =~= old(self).map@);
                }
                Err(Error::NameNotFound(name))
            },
        }
    }

    /// Removes the value that `id` names, leaving the names as they are.
    pub fn remove_id(&mut self, id: Id) -> (r: Result<(), Error>)
        requires
            old(self).wf(),
        ensures
            final(self).wf(),
            final(self)@.names == old(self)@.names,
            final(self)@.values == old(self)@.values.remove(id).0,
            match old(self)@.values.remove(id).1 {
                Ok(_) => r is Ok,
                Err(e) => r == Err::<(), Error>(convert(e)),
            },
    {
        proof {
            self.indexed.lemma_wf();
            assert forall|k: u64| #[trigger] self.map@.contains_key(k) implies old(self)@.values.remove(id).0.slots.spent(self.map@[k]) by {
                assert(old(self)@.names.contains_key(k));
                super::lemma_remove_spends(old(self)@.values, id, self.map@[k]);
            }
        }
        let r = self.indexed.remove(id);
        proof {
            self.indexed.lemma_wf();
        }
        match r {
            Ok(()) => Ok(()),
            Err(e) => Err(Error::from(e)),
        }
    }

    /// The id that `name` maps to.
    fn id_of<'a>(&self, name: &'a str) -> (r: Result<Id, Error<'a>>)
        ensures
            match self@.id_of(name@) {
                Some(id) => r == Ok::<Id, Error<'a>>(id),
                None => r == Err::<Id, Error<'a>>(Error::NameNotFound(name)),
            },
    {
        let key = hash_name(name);
        match self.map.get(&key) {
            Some(id) => Ok(*id),
            None => Err(Error::NameNotFound(name)),
        }
    }

    /// Inserts `v` and maps `name` to its id, removing the value that
    /// `name` named before.
    fn set_value(&mut self, name: &str, v: Value) -> (r: Result<Id, Error<'static>>)
        requires
            old(self).wf(),
        ensures
            final(self).wf(),
            (final(self)@, r) == old(self)@.set(name@, v),
    {
        proof {
            self.indexed.lemma_wf();
        }
        let ghost old_model = self@;
        let inserted = self.indexed.insert_value(v);
        match inserted {
            Ok(id) => {
                let key = hash_name(name);
                let replaced = self.map.insert(key, id);
                proof {
                    self.indexed.lemma_wf();
                    super::lemma_insert_spends(old_model.values, v, id);
                    assert forall|k: u64| #[trigger] self.map@.contains_key(k) implies self@.values.slots.spent(self.map@[k]) by {
                        if k != key {
                            assert(old_model.names.contains_key(k));
                            super::lemma_insert_spends(old_model.values, v, old_model.names[k]);
                        }
                    }
                }
                match replaced {
                    Some(old_id) => {
                        let ghost mid = self@;
                        proof {
                            assert(old_model.names.contains_key(key));
                            assert forall|k: u64| #[trigger] mid.names.contains_key(k) implies mid.values.remove(old_id).0.slots.spent(mid.names[k]) by {
                                assert(mid.values.slots.spent(mid.names[k]));
                                super::lemma_remove_spends(mid.values, old_id, mid.names[k]);
                            }
                        }
                        let _ = self.indexed.remove(old_id);
                        proof {
                            self.indexed.lemma_wf();
                        }
                    },
                    None => {},
                }
                Ok(id)
            },
            Err(e) => {
                proof {
                    self.indexed.lemma_wf();
                    assert forall|k: u64| #[trigger] self.map@.contains_key(k) implies self@.values.slots.spent(self.map@[k]) by {
                        assert(old_model.names.contains_key(k));
                        super::lemma_insert_spends(old_model.values, v, self.map@[k]);
                    }
                }
                Err(Error::from(e))
            },
        }
    }

    /// Inserts `v` under `name`, which must name nothing yet.
    fn insert_value<'a>(&mut self, name: &'a str, v: Value) -> (r: Result<Id, Error<'a>>)
        requires
            old(self).wf(),
        ensures
            final(self).wf(),
            old(self)@.id_of(name@) is Some ==> r == Err::<Id, Error<'a>>(Error::NameAlreadyExists(name))
                && final(self)@ == old(self)@,
            old(self)@.id_of(name@) is None ==> (final(self)@, r) == old(self)@.insert_new(name@, v),
    {
        let key = hash_name(name);
        if self.map.contains_key(&key) {
            return Err(Error::NameAlreadyExists(name));
        }
        proof {
            self.indexed.lemma_wf();
        }
        let ghost old_model = self@;
        let inserted = self.indexed.insert_value(v);
        proof {
            self.indexed.lemma_wf();
            assert forall|k: u64| #[trigger] old_model.names.contains_key(k) implies self@.values.slots.spent(old_model.names[k]) by {
                assert(old_model.values.slots.spent(old_model.names[k]));
                super::lemma_insert_spends(old_model.values, v, old_model.names[k]);
            }
        }
        match inserted {
            Ok(id) => {
                self.map.insert(key, id);
                proof {
                    super::lemma_insert_spends(old_model.values, v, id);
                }
                Ok(id)
            },
            Err(e) => Err(Error::from(e)),
        }
    }
}

/// The operations on values of type `T` found by name.
pub trait StrOps<T: RegistryObject>: Sized {
    /// The abstract state of the registry.
    spec fn named_state(&self) -> NamedModel;

    /// The invariant of the registry.
    spec fn named_wf(&self) -> bool;

    /// Inserts `value` and maps `name` to it. The value that `name` named
    /// before is removed.
    fn set(&mut self, name: &str, value: T) -> (r: Result<Id, Error>)
        requires
            old(self).named_wf(),
        ensures
            final(self).named_wf(),
            (final(self).named_state(), r) == old(self).named_state().set(name@, value.to_value()),
    ;

    /// Inserts `value` under `name`. Returns [`Error::NameAlreadyExists`],
    /// and changes nothing, if `name` names a value already.
    fn insert<'a>(&mut self, name: &'a str, value: T) -> (r: Result<Id, Error<'a>>)
        requires
            old(self).named_wf(),
        ensures
            final(self).named_wf(),
            old(self).named_state().id_of(name@) is Some ==> r == Err::<Id, Error<'a>>(
                Error::NameAlreadyExists(name),
            ) && final(self).named_state() == old(self).named_state(),
            old(self).named_state().id_of(name@) is None ==> (final(self).named_state(), r)
                == old(self).named_state().insert_new(name@, value.to_value()),
    ;

    /// Retrieves a reference to the value that `name` names. Returns
    /// [`Error::NameNotFound`] for an unknown name.
    fn get<'a>(&self, name: &'a str) -> (r: Result<&T, Error<'a>>)
        requires
            self.named_wf(),
        ensures
            match self.named_state().id_of(name@) {
                Some(id) => match self.named_state().values.lookup_as(id, T::TYPE) {
                    Ok(v) => r matches Ok(x) && (*x).to_value() == v,
                    Err(e) => r == Err::<&T, Error<'a>>(convert(e)),
                },
                None => r == Err::<&T, Error<'a>>(Error::NameNotFound(name)),
            },
    ;

    /// Retrieves a mutable reference to the value that `name` names.
    /// Returns [`Error::NameNotFound`] for an unknown name.
    fn get_mut<'a>(&mut self, name: &'a str) -> (r: Result<&mut T, Error<'a>>)
        requires
            old(self).named_wf(),
        ensures
            match r {
                Ok(x) => {
                    &&& old(self).named_state().id_of(name@) matches Some(id)
                        && old(self).named_state().values.lookup_as(id, T::TYPE) == Ok::<Value, IndexedError>((*x).to_value())
                        && final(self).named_state().values == old(self).named_state().values.set(id, (*final(x)).to_value())
                    &&& final(self).named_state().names == old(self).named_state().names
                    &&& final(self).named_wf()
                },
                Err(e) => {
                    &&& match old(self).named_state().id_of(name@) {
                        Some(id) => old(self).named_state().values.lookup_as(id, T::TYPE) matches Err(ie) && e == convert(ie),
                        None => e == Error::NameNotFound(name),
                    }
                    &&& *final(self) == *old(self)
                },
            },
    ;
}

/// The operations on values of type `T` found by id.
pub trait IdOps<T: RegistryObject>: Sized {
    /// The abstract state of the registry.
    spec fn id_state(&self) -> NamedModel;

    /// The invariant of the registry.
    spec fn id_wf(&self) -> bool;

    /// Retrieves a reference to the value that `id` names.
    fn get_id(&self, id: Id) -> (r: Result<&T, Error>)
        requires
            self.id_wf(),
        ensures
            match self.id_state().values.lookup_as(id, T::TYPE) {
                Ok(v) => r matches Ok(x) && (*x).to_value() == v,
                Err(e) => r == Err::<&T, Error>(convert(e)),
            },
    ;

    /// Retrieves a mutable reference to the value that `id` names.
    fn get_mut_id(&mut self, id: Id) -> (r: Result<&mut T, Error>)
        requires
            old(self).id_wf(),
        ensures
            match r {
                Ok(x) => {
                    &&& final(self).id_wf()
                    &&& final(self).id_state().names == old(self).id_state().names
                    &&& old(self).id_state().values.lookup_as(id, T::TYPE) == Ok::<Value, IndexedError>((*x).to_value())
                        && final(self).id_state().values == old(self).id_state().values.set(id, (*final(x)).to_value())
                },
                Err(e) => {
                    &&& old(self).id_state().values.lookup_as(id, T::TYPE) matches Err(ie) && e == convert(ie)
                    &&& *final(self) == *old(self)
                },
            },
    ;
}

impl StrOps<u128> for Registry {
    open spec fn named_state(&self) -> NamedModel {
        self@
    }

    open spec fn named_wf(&self) -> bool {
        self.wf()
    }

    fn set(&mut self, name: &str, value: u128) -> (r: Result<Id, Error>) {
        self.set_value(name, Value::U128(value))
    }

    fn insert<'a>(&mut self, name: &'a str, value: u128) -> (r: Result<Id, Error<'a>>) {
        self.insert_value(name, Value::U128(value))
    }

    fn get<'a>(&self, name: &'a str) -> (r: Result<&u128, Error<'a>>) {
        let id = match self.id_of(name) {
            Ok(id) => id,
            Err(e) => return Err(e),
        };
        match Ops::<u128>::get(&self.indexed, id) {
            Ok(v) => Ok(v),
            Err(e) => Err(Error::from(e)),
        }
    }

    fn get_mut<'a>(&mut self, name: &'a str) -> (r: Result<&mut u128, Error<'a>>) {
        let id = match self.id_of(name) {
            Ok(id) => id,
            Err(e) => return Err(e),
        };
        proof {
            self.indexed.lemma_wf();
            u128::lemma_to_value(0, 0);
        }
        let ghost values = self@.values;
        match Ops::<u128>::get_mut(&mut self.indexed, id) {
            Ok(v) => {
                proof {
                    super::lemma_set_then_lookup(values, id, (*final(v)).to_value(), id);
                }
                Ok(v)
            },
            Err(e) => Err(Error::from(e)),
        }
    }
}

impl IdOps<u128> for Registry {
    open spec fn id_state(&self) -> NamedModel {
        self@
    }

    open spec fn id_wf(&self) -> bool {
        self.wf()
    }

    fn get_id(&self, id: Id) -> (r: Result<&u128, Error>) {
        match Ops::<u128>::get(&self.indexed, id) {
            Ok(v) => Ok(v),
            Err(e) => Err(Error::from(e)),
        }
    }

    fn get_mut_id(&mut self, id: Id) -> (r: Result<&mut u128, Error>) {
        proof {
            self.indexed.lemma_wf();
            u128::lemma_to_value(0, 0);
        }
        let ghost values = self@.values;
        let ghost names = self@.names;
        assert(values.wf());
        assert(forall|k: u64| #[trigger] names.contains_key(k) ==> values.slots.spent(names[k]));
        match Ops::<u128>::get_mut(&mut self.indexed, id) {
            Ok(v) => {
                proof {
                    super::lemma_set_then_lookup(values, id, (*final(v)).to_value(), id);
                    assert(values.set(id, (*final(v)).to_value()).wf());
                    assert(values.set(id, (*final(v)).to_value()).slots == values.slots);
                }
                Ok(v)
            },
            Err(e) => Err(Error::from(e)),
        }
    }
}

impl StrOps<i128> for Registry {
    open spec fn named_state(&self) -> NamedModel {
        self@
    }

    open spec fn named_wf(&self) -> bool {
        self.wf()
    }

    fn set(&mut self, name: &str, value: i128) -> (r: Result<Id, Error>) {
        self.set_value(name, Value::I128(value))
    }

    fn insert<'a>(&mut self, name: &'a str, value: i128) -> (r: Result<Id, Error<'a>>) {
        self.insert_value(name, Value::I128(value))
    }

    fn get<'a>(&self, name: &'a str) -> (r: Result<&i128, Error<'a>>) {
        let id = match self.id_of(name) {
            Ok(id) => id,
            Err(e) => return Err(e),
        };
        match Ops::<i128>::get(&self.indexed, id) {
            Ok(v) => Ok(v),
            Err(e) => Err(Error::from(e)),
        }
    }

    fn get_mut<'a>(&mut self, name: &'a str) -> (r: Result<&mut i128, Error<'a>>) {
        let id = match self.id_of(name) {
            Ok(id) => id,
            Err(e) => return Err(e),
        };
        proof {
            self.indexed.lemma_wf();
            i128::lemma_to_value(0, 0);
        }
        let ghost values = self@.values;
        match Ops::<i128>::get_mut(&mut self.indexed, id) {
            Ok(v) => {
                proof {
                    super::lemma_set_then_lookup(values, id, (*final(v)).to_value(), id);
                }
                Ok(v)
            },
            Err(e) => Err(Error::from(e)),
        }
    }
}

impl IdOps<i128> for Registry {
    open spec fn id_state(&self) -> NamedModel {
        self@
    }

    open spec fn id_wf(&self) -> bool {
        self.wf()
    }

    fn get_id(&self, id: Id) -> (r: Result<&i128, Error>) {
        match Ops::<i128>::get(&self.indexed, id) {
            Ok(v) => Ok(v),
            Err(e) => Err(Error::from(e)),
        }
    }

    fn get_mut_id(&mut self, id: Id) -> (r: Result<&mut i128, Error>) {
        proof {
            self.indexed.lemma_wf();
            i128::lemma_to_value(0, 0);
        }
        let ghost values = self@.values;
        let ghost names = self@.names;
        assert(values.wf());
        assert(forall|k: u64| #[trigger] names.contains_key(k) ==> values.slots.spent(names[k]));
        match Ops::<i128>::get_mut(&mut self.indexed, id) {
            Ok(v) => {
                proof {
                    super::lemma_set_then_lookup(values, id, (*final(v)).to_value(), id);
                    assert(values.set(id, (*final(v)).to_value()).wf());
                    assert(values.set(id, (*final(v)).to_value()).slots == values.slots);
                }
                Ok(v)
            },
            Err(e) => Err(Error::from(e)),
        }
    }
}

impl StrOps<&'static str> for Registry {
    open spec fn named_state(&self) -> NamedModel {
        self@
    }

    open spec fn named_wf(&self) -> bool {
        self.wf()
    }

    fn set(&mut self, name: &str, value: &'static str) -> (r: Result<Id, Error>) {
        self.set_value(name, Value::StaticStr(value))
    }

    fn insert<'a>(&mut self, name: &'a str, value: &'static str) -> (r: Result<Id, Error<'a>>) {
        self.insert_value(name, Value::StaticStr(value))
    }

    fn get<'a>(&self, name: &'a str) -> (r: Result<&&'static str, Error<'a>>) {
        let id = match self.id_of(name) {
            Ok(id) => id,
            Err(e) => return Err(e),
        };
        match Ops::<&'static str>::get(&self.indexed, id) {
            Ok(v) => Ok(v),
            Err(e) => Err(Error::from(e)),
        }
    }

    fn get_mut<'a>(&mut self, name: &'a str) -> (r: Result<&mut &'static str, Error<'a>>) {
        let id = match self.id_of(name) {
            Ok(id) => id,
            Err(e) => return Err(e),
        };
        proof {
            self.indexed.lemma_wf();
            <&'static str>::lemma_to_value("", "");
        }
        let ghost values = self@.values;
        match Ops::<&'static str>::get_mut(&mut self.indexed, id) {
            Ok(v) => {
                proof {
                    super::lemma_set_then_lookup(values, id, (*final(v)).to_value(), id);
                }
                Ok(v)
            },
            Err(e) => Err(Error::from(e)),
        }
    }
}

impl IdOps<&'static str> for Registry {
    open spec fn id_state(&self) -> NamedModel {
        self@
    }

    open spec fn id_wf(&self) -> bool {
        self.wf()
    }

    fn get_id(&self, id: Id) -> (r: Result<&&'static str, Error>) {
        match Ops::<&'static str>::get(&self.indexed, id) {
            Ok(v) => Ok(v),
            Err(e) => Err(Error::from(e)),
        }
    }

    fn get_mut_id(&mut self, id: Id) -> (r: Result<&mut &'static str, Error>) {
        proof {
            self.indexed.lemma_wf();
            <&'static str>::lemma_to_value("", "");
        }
        let ghost values = self@.values;
        let ghost names = self@.names;
        assert(values.wf());
        assert(forall|k: u64| #[trigger] names.contains_key(k) ==> values.slots.spent(names[k]));
        match Ops::<&'static str>::get_mut(&mut self.indexed, id) {
            Ok(v) => {
                proof {
                    super::lemma_set_then_lookup(values, id, (*final(v)).to_value(), id);
                    assert(values.set(id, (*final(v)).to_value()).wf());
                    assert(values.set(id, (*final(v)).to_value()).slots == values.slots);
                }
                Ok(v)
            },
            Err(e) => Err(Error::from(e)),
        }
    }
}

impl StrOps<u64> for Registry {
    open spec fn named_state(&self) -> NamedModel {
        self@
    }

    open spec fn named_wf(&self) -> bool {
        self.wf()
    }

    fn set(&mut self, name: &str, value: u64) -> (r: Result<Id, Error>) {
        self.set_value(name, Value::U64(value))
    }

    fn insert<'a>(&mut self, name: &'a str, value: u64) -> (r: Result<Id, Error<'a>>) {
        self.insert_value(name, Value::U64(value))
    }

    fn get<'a>(&self, name: &'a str) -> (r: Result<&u64, Error<'a>>) {
        let id = match self.id_of(name) {
            Ok(id) => id,
            Err(e) => return Err(e),
        };
        match Ops::<u64>::get(&self.indexed, id) {
            Ok(v) => Ok(v),
            Err(e) => Err(Error::from(e)),
        }
    }

    fn get_mut<'a>(&mut self, name: &'a str) -> (r: Result<&mut u64, Error<'a>>) {
        let id = match self.id_of(name) {
            Ok(id) => id,
            Err(e) => return Err(e),
        };
        proof {
            self.indexed.lemma_wf();
            u64::lemma_to_value(0, 0);
        }
        let ghost values = self@.values;
        match Ops::<u64>::get_mut(&mut self.indexed, id) {
            Ok(v) => {
                proof {
                    super::lemma_set_then_lookup(values, id, (*final(v)).to_value(), id);
                }
                Ok(v)
            },
            Err(e) => Err(Error::from(e)),
        }
    }
}

impl IdOps<u64> for Registry {
    open spec fn id_state(&self) -> NamedModel {
        self@
    }

    open spec fn id_wf(&self) -> bool {
        self.wf()
    }

    fn get_id(&self, id: Id) -> (r: Result<&u64, Error>) {
        match Ops::<u64>::get(&self.indexed, id) {
            Ok(v) => Ok(v),
            Err(e) => Err(Error::from(e)),
        }
    }

    fn get_mut_id(&mut self, id: Id) -> (r: Result<&mut u64, Error>) {
        proof {
            self.indexed.lemma_wf();
            u64::lemma_to_value(0, 0);
        }
        let ghost values = self@.values;
        let ghost names = self@.names;
        assert(values.wf());
        assert(forall|k: u64| #[trigger] names.contains_key(k) ==> values.slots.spent(names[k]));
        match Ops::<u64>::get_mut(&mut self.indexed, id) {
            Ok(v) => {
                proof {
                    super::lemma_set_then_lookup(values, id, (*final(v)).to_value(), id);
                    assert(values.set(id, (*final(v)).to_value()).wf());
                    assert(values.set(id, (*final(v)).to_value()).slots == values.slots);
                }
                Ok(v)
            },
            Err(e) => Err(Error::from(e)),
        }
    }
}

impl StrOps<i64> for Registry {
    open spec fn named_state(&self) -> NamedModel {
        self@
    }

    open spec fn named_wf(&self) -> bool {
        self.wf()
    }

    fn set(&mut self, name: &str, value: i64) -> (r: Result<Id, Error>) {
        self.set_value(name, Value::I64(value))
    }

    fn insert<'a>(&mut self, name: &'a str, value: i64) -> (r: Result<Id, Error<'a>>) {
        self.insert_value(name, Value::I64(value))
    }

    fn get<'a>(&self, name: &'a str) -> (r: Result<&i64, Error<'a>>) {
        let id = match self.id_of(name) {
            Ok(id) => id,
            Err(e) => return Err(e),
        };
        match Ops::<i64>::get(&self.indexed, id) {
            Ok(v) => Ok(v),
            Err(e) => Err(Error::from(e)),
        }
    }

    fn get_mut<'a>(&mut self, name: &'a str) -> (r: Result<&mut i64, Error<'a>>) {
        let id = match self.id_of(name) {
            Ok(id) => id,
            Err(e) => return Err(e),
        };
        proof {
            self.indexed.lemma_wf();
            i64::lemma_to_value(0, 0);
        }
        let ghost values = self@.values;
        match Ops::<i64>::get_mut(&mut self.indexed, id) {
            Ok(v) => {
                proof {
                    super::lemma_set_then_lookup(values, id, (*final(v)).to_value(), id);
                }
                Ok(v)
            },
            Err(e) => Err(Error::from(e)),
        }
    }
}

impl IdOps<i64> for Registry {
    open spec fn id_state(&self) -> NamedModel {
        self@
    }

    open spec fn id_wf(&self) -> bool {
        self.wf()
    }

    fn get_id(&self, id: Id) -> (r: Result<&i64, Error>) {
        match Ops::<i64>::get(&self.indexed, id) {
            Ok(v) => Ok(v),
            Err(e) => Err(Error::from(e)),
        }
    }

    fn get_mut_id(&mut self, id: Id) -> (r: Result<&mut i64, Error>) {
        proof {
            self.indexed.lemma_wf();
            i64::lemma_to_value(0, 0);
        }
        let ghost values = self@.values;
        let ghost names = self@.names;
        assert(values.wf());
        assert(forall|k: u64| #[trigger] names.contains_key(k) ==> values.slots.spent(names[k]));
        match Ops::<i64>::get_mut(&mut self.indexed, id) {
            Ok(v) => {
                proof {
                    super::lemma_set_then_lookup(values, id, (*final(v)).to_value(), id);
                    assert(values.set(id, (*final(v)).to_value()).wf());
                    assert(values.set(id, (*final(v)).to_value()).slots == values.slots);
                }
                Ok(v)
            },
            Err(e) => Err(Error::from(e)),
        }
    }
}

impl StrOps<u32> for Registry {
    open spec fn named_state(&self) -> NamedModel {
        self@
    }

    open spec fn named_wf(&self) -> bool {
        self.wf()
    }

    fn set(&mut self, name: &str, value: u32) -> (r: Result<Id, Error>) {
        self.set_value(name, Value::U32(value))
    }

    fn insert<'a>(&mut self, name: &'a str, value: u32) -> (r: Result<Id, Error<'a>>) {
        self.insert_value(name, Value::U32(value))
    }

    fn get<'a>(&self, name: &'a str) -> (r: Result<&u32, Error<'a>>) {
        let id = match self.id_of(name) {
            Ok(id) => id,
            Err(e) => return Err(e),
        };
        match Ops::<u32>::get(&self.indexed, id) {
            Ok(v) => Ok(v),
            Err(e) => Err(Error::from(e)),
        }
    }

    fn get_mut<'a>(&mut self, name: &'a str) -> (r: Result<&mut u32, Error<'a>>) {
        let id = match self.id_of(name) {
            Ok(id) => id,
            Err(e) => return Err(e),
        };
        proof {
            self.indexed.lemma_wf();
            u32::lemma_to_value(0, 0);
        }
        let ghost values = self@.values;
        match Ops::<u32>::get_mut(&mut self.indexed, id) {
            Ok(v) => {
                proof {
                    super::lemma_set_then_lookup(values, id, (*final(v)).to_value(), id);
                }
                Ok(v)
            },
            Err(e) => Err(Error::from(e)),
        }
    }
}

impl IdOps<u32> for Registry {
    open spec fn id_state(&self) -> NamedModel {
        self@
    }

    open spec fn id_wf(&self) -> bool {
        self.wf()
    }

    fn get_id(&self, id: Id) -> (r: Result<&u32, Error>) {
        match Ops::<u32>::get(&self.indexed, id) {
            Ok(v) => Ok(v),
            Err(e) => Err(Error::from(e)),
        }
    }

    fn get_mut_id(&mut self, id: Id) -> (r: Result<&mut u32, Error>) {
        proof {
            self.indexed.lemma_wf();
            u32::lemma_to_value(0, 0);
        }
        let ghost values = self@.values;
        let ghost names = self@.names;
        assert(values.wf());
        assert(forall|k: u64| #[trigger] names.contains_key(k) ==> values.slots.spent(names[k]));
        match Ops::<u32>::get_mut(&mut self.indexed, id) {
            Ok(v) => {
                proof {
                    super::lemma_set_then_lookup(values, id, (*final(v)).to_value(), id);
                    assert(values.set(id, (*final(v)).to_value()).wf());
                    assert(values.set(id, (*final(v)).to_value()).slots == values.slots);
                }
                Ok(v)
            },
            Err(e) => Err(Error::from(e)),
        }
    }
}

impl StrOps<i32> for Registry {
    open spec fn named_state(&self) -> NamedModel {
        self@
    }

    open spec fn named_wf(&self) -> bool {
        self.wf()
    }

    fn set(&mut self, name: &str, value: i32) -> (r: Result<Id, Error>) {
        self.set_value(name, Value::I32(value))
    }

    fn insert<'a>(&mut self, name: &'a str, value: i32) -> (r: Result<Id, Error<'a>>) {
        self.insert_value(name, Value::I32(value))
    }

    fn get<'a>(&self, name: &'a str) -> (r: Result<&i32, Error<'a>>) {
        let id = match self.id_of(name) {
            Ok(id) => id,
            Err(e) => return Err(e),
        };
        match Ops::<i32>::get(&self.indexed, id) {
            Ok(v) => Ok(v),
            Err(e) => Err(Error::from(e)),
        }
    }

    fn get_mut<'a>(&mut self, name: &'a str) -> (r: Result<&mut i32, Error<'a>>) {
        let id = match self.id_of(name) {
            Ok(id) => id,
            Err(e) => return Err(e),
        };
        proof {
            self.indexed.lemma_wf();
            i32::lemma_to_value(0, 0);
        }
        let ghost values = self@.values;
        match Ops::<i32>::get_mut(&mut self.indexed, id) {
            Ok(v) => {
                proof {
                    super::lemma_set_then_lookup(values, id, (*final(v)).to_value(), id);
                }
                Ok(v)
            },
            Err(e) => Err(Error::from(e)),
        }
    }
}

impl IdOps<i32> for Registry {
    open spec fn id_state(&self) -> NamedModel {
        self@
    }

    open spec fn id_wf(&self) -> bool {
        self.wf()
    }

    fn get_id(&self, id: Id) -> (r: Result<&i32, Error>) {
        match Ops::<i32>::get(&self.indexed, id) {
            Ok(v) => Ok(v),
            Err(e) => Err(Error::from(e)),
        }
    }

    fn get_mut_id(&mut self, id: Id) -> (r: Result<&mut i32, Error>) {
        proof {
            self.indexed.lemma_wf();
            i32::lemma_to_value(0, 0);
        }
        let ghost values = self@.values;
        let ghost names = self@.names;
        assert(values.wf());
        assert(forall|k: u64| #[trigger] names.contains_key(k) ==> values.slots.spent(names[k]));
        match Ops::<i32>::get_mut(&mut self.indexed, id) {
            Ok(v) => {
                proof {
                    super::lemma_set_then_lookup(values, id, (*final(v)).to_value(), id);
                    assert(values.set(id, (*final(v)).to_value()).wf());
                    assert(values.set(id, (*final(v)).to_value()).slots == values.slots);
                }
                Ok(v)
            },
            Err(e) => Err(Error::from(e)),
        }
    }
}

impl StrOps<char> for Registry {
    open spec fn named_state(&self) -> NamedModel {
        self@
    }

    open spec fn named_wf(&self) -> bool {
        self.wf()
    }

    fn set(&mut self, name: &str, value: char) -> (r: Result<Id, Error>) {
        self.set_value(name, Value::Char(value))
    }

    fn insert<'a>(&mut self, name: &'a str, value: char) -> (r: Result<Id, Error<'a>>) {
        self.insert_value(name, Value::Char(value))
    }

    fn get<'a>(&self, name: &'a str) -> (r: Result<&char, Error<'a>>) {
        let id = match self.id_of(name) {
            Ok(id) => id,
            Err(e) => return Err(e),
        };
        match Ops::<char>::get(&self.indexed, id) {
            Ok(v) => Ok(v),
            Err(e) => Err(Error::from(e)),
        }
    }

    fn get_mut<'a>(&mut self, name: &'a str) -> (r: Result<&mut char, Error<'a>>) {
        let id = match self.id_of(name) {
            Ok(id) => id,
            Err(e) => return Err(e),
        };
        proof {
            self.indexed.lemma_wf();
            char::lemma_to_value('a', 'a');
        }
        let ghost values = self@.values;
        match Ops::<char>::get_mut(&mut self.indexed, id) {
            Ok(v) => {
                proof {
                    super::lemma_set_then_lookup(values, id, (*final(v)).to_value(), id);
                }
                Ok(v)
            },
            Err(e) => Err(Error::from(e)),
        }
    }
}

impl IdOps<char> for Registry {
    open spec fn id_state(&self) -> NamedModel {
        self@
    }

    open spec fn id_wf(&self) -> bool {
        self.wf()
    }

    fn get_id(&self, id: Id) -> (r: Result<&char, Error>) {
        match Ops::<char>::get(&self.indexed, id) {
            Ok(v) => Ok(v),
            Err(e) => Err(Error::from(e)),
        }
    }

    fn get_mut_id(&mut self, id: Id) -> (r: Result<&mut char, Error>) {
        proof {
            self.indexed.lemma_wf();
            char::lemma_to_value('a', 'a');
        }
        let ghost values = self@.values;
        let ghost names = self@.names;
        assert(values.wf());
        assert(forall|k: u64| #[trigger] names.contains_key(k) ==> values.slots.spent(names[k]));
        match Ops::<char>::get_mut(&mut self.indexed, id) {
            Ok(v) => {
                proof {
                    super::lemma_set_then_lookup(values, id, (*final(v)).to_value(), id);
                    assert(values.set(id, (*final(v)).to_value()).wf());
                    assert(values.set(id, (*final(v)).to_value()).slots == values.slots);
                }
                Ok(v)
            },
            Err(e) => Err(Error::from(e)),
        }
    }
}

} // verus!
