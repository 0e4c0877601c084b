use maple::registry::named::{self, hash_name, IdOps, StrOps};
use maple::registry::{Error, Ops, Registry, Type, TypedId, ALLOCATIONS_NOT_FREED};

#[test]
fn mod_basic_ops() {
    let mut registry = Registry::new();
    let id = registry.insert("Hello").unwrap();
    assert_eq!(registry.get_typed(id).unwrap(), &"Hello");
    let raw: &'static str = *registry.get(id.get()).unwrap();
    assert_eq!(raw, "Hello");
    registry.remove_typed(id).unwrap();
}

fn basic_ops<T>(values: &[T])
where
    T: Copy + PartialEq + std::fmt::Debug + maple::registry::RegistryObject,
    Registry: Ops<T>,
{
    let mut registry = Registry::new();
    let mut ids: Vec<(usize, TypedId<T>)> = Vec::new();
    for i in 0..values.len() {
        ids.push((i, registry.insert(values[i]).unwrap()));
    }
    // Visit in a scrambled order.
    ids.reverse();
    ids.rotate_left(values.len() / 3);

    for (index, id) in &ids {
        let typed = *registry.get_typed(*id).unwrap();
        let raw: T = *registry.get(id.get()).unwrap();
        assert_eq!(typed, raw);
        assert_eq!(raw, values[*index]);
    }

    for (index, id) in &ids {
        if index & 1 == 0 {
            registry.remove_typed(*id).unwrap();
        } else {
            registry.remove(id.get()).unwrap();
        }
    }

    for (_, id) in &ids {
        let typed = registry.get_typed(*id);
        let raw: Result<&T, Error> = registry.get(id.get());
        assert_eq!(typed, raw);
        assert_eq!(raw, Err(Error::InvalidId));
    }
}

#[test]
fn basic_ops_of_every_type() {
    const COUNT: usize = 1000;
    basic_ops(&(0..COUNT).map(|i| (i as u128) << 100 | i as u128).collect::<Vec<_>>());
    basic_ops(&(0..COUNT).map(|i| -(i as i128) * 1_000_000_007).collect::<Vec<_>>());
    basic_ops(&(0..COUNT).map(|i| (i as u64) * 0x1_0000_0001).collect::<Vec<_>>());
    basic_ops(&(0..COUNT).map(|i| -(i as i64) * 77).collect::<Vec<_>>());
    basic_ops(&(0..COUNT).map(|i| (i as u32) * 65_537).collect::<Vec<_>>());
    basic_ops(&(0..COUNT).map(|i| -(i as i32) * 3).collect::<Vec<_>>());
    basic_ops(&(0..COUNT).map(|i| char::from_u32(0x41 + i as u32).unwrap()).collect::<Vec<_>>());
    basic_ops(&["a", "bc", "def", "", "ghij"]);
}

#[test]
fn type_mismatch_and_type_of() {
    let mut registry = Registry::new();
    let id = registry.insert(5u64).unwrap();
    assert_eq!(registry.type_of(id.get()), Ok(Type::U64));
    let wrong: Result<&u32, Error> = registry.get(id.get());
    assert_eq!(wrong, Err(Error::TypeMismatch { expected: Type::U32, actual: Type::U64 }));
    let right: Result<&u64, Error> = registry.get(id.get());
    assert_eq!(right, Ok(&5));
    assert!(registry.is_valid(id.get()));
    registry.remove(id.get()).unwrap();
    assert!(!registry.is_valid(id.get()));
    assert_eq!(registry.type_of(id.get()), Err(Error::InvalidId));
    assert_eq!(registry.remove(id.get()), Err(Error::InvalidId));
}

#[test]
fn get_mut_writes_through() {
    let mut registry = Registry::new();
    let a = registry.insert(1i32).unwrap();
    let b = registry.insert(2i32).unwrap();
    *registry.get_mut(a.get()).unwrap() = 10;
    *registry.get_typed_mut(b).unwrap() += 5;
    assert_eq!(registry.get_typed(a), Ok(&10));
    assert_eq!(registry.get_typed(b), Ok(&7));
    let wrong: Result<&mut char, Error> = registry.get_mut(a.get());
    assert_eq!(wrong, Err(Error::TypeMismatch { expected: Type::Char, actual: Type::I32 }));
    registry.remove_typed(a).unwrap();
    registry.remove_typed(b).unwrap();
}

#[test]
fn values_of_different_sizes_do_not_mix() {
    let mut registry = Registry::new();
    let big = registry.insert(u128::MAX).unwrap();
    let mid = registry.insert(-1i64).unwrap();
    let small = registry.insert('z').unwrap();
    let text = registry.insert("text").unwrap();
    assert_eq!(registry.get_typed(big), Ok(&u128::MAX));
    assert_eq!(registry.get_typed(mid), Ok(&-1));
    assert_eq!(registry.get_typed(small), Ok(&'z'));
    assert_eq!(registry.get_typed(text), Ok(&"text"));
    registry.remove_typed(mid).unwrap();
    assert_eq!(registry.get_typed(big), Ok(&u128::MAX));
    assert_eq!(registry.get_typed(small), Ok(&'z'));
    assert_eq!(registry.get_typed(mid), Err(Error::InvalidId));
    registry.remove_typed(big).unwrap();
    registry.remove_typed(small).unwrap();
    registry.remove_typed(text).unwrap();
}

#[test]
fn allocations_message() {
    assert_eq!(ALLOCATIONS_NOT_FREED, "All allocations must be freed before destroying the registry.");
}

#[test]
fn named_set_and_get() {
    let mut registry = named::Registry::new();
    let a = StrOps::<u32>::set(&mut registry, "a", 1).unwrap();
    let b = StrOps::<u32>::set(&mut registry, "b", 2).unwrap();
    assert_ne!(a, b);
    let got: &u32 = registry.get("a").unwrap();
    assert_eq!(*got, 1);
    let got: &u32 = registry.get("b").unwrap();
    assert_eq!(*got, 2);
    // Setting again replaces the value and removes the old one.
    let a2 = StrOps::<u32>::set(&mut registry, "a", 3).unwrap();
    let got: &u32 = registry.get("a").unwrap();
    assert_eq!(*got, 3);
    let stale: Result<&u32, named::Error> = registry.get_id(a);
    assert!(matches!(stale, Err(named::Error::InvalidId)));
    let fresh: &u32 = registry.get_id(a2).unwrap();
    assert_eq!(*fresh, 3);
}

#[test]
fn named_insert_refuses_existing_names() {
    let mut registry = named::Registry::new();
    let id = StrOps::<i64>::insert(&mut registry, "x", -4).unwrap();
    let again = StrOps::<i64>::insert(&mut registry, "x", 9);
    assert!(matches!(again, Err(named::Error::NameAlreadyExists("x"))));
    let got: &i64 = registry.get("x").unwrap();
    assert_eq!(*got, -4);
    *StrOps::<i64>::get_mut(&mut registry, "x").unwrap() = 8;
    let got: &i64 = registry.get_id(id).unwrap();
    assert_eq!(*got, 8);
    *IdOps::<i64>::get_mut_id(&mut registry, id).unwrap() = 9;
    let got: &i64 = registry.get("x").unwrap();
    assert_eq!(*got, 9);
}

#[test]
fn named_errors() {
    let mut registry = named::Registry::new();
    let missing: Result<&u64, named::Error> = registry.get("nothing");
    assert!(matches!(missing, Err(named::Error::NameNotFound("nothing"))));
    assert!(matches!(registry.remove("nothing"), Err(named::Error::NameNotFound("nothing"))));
    StrOps::<u64>::set(&mut registry, "n", 1).unwrap();
    let wrong: Result<&u32, named::Error> = registry.get("n");
    assert!(matches!(wrong, Err(named::Error::TypeMismatch { expected: Type::U32, actual: Type::U64 })));
    registry.remove("n").unwrap();
    let gone: Result<&u64, named::Error> = registry.get("n");
    assert!(matches!(gone, Err(named::Error::NameNotFound("n"))));
}

#[test]
fn named_remove_id_keeps_the_name() {
    let mut registry = named::Registry::new();
    let id = StrOps::<char>::set(&mut registry, "c", 'q').unwrap();
    registry.remove_id(id).unwrap();
    assert!(matches!(registry.remove_id(id), Err(named::Error::InvalidId)));
    let stale: Result<&char, named::Error> = registry.get("c");
    assert!(matches!(stale, Err(named::Error::InvalidId)));
}

#[test]
fn name_hashes_depend_on_the_text() {
    assert_eq!(hash_name("window"), hash_name("window"));
    assert_ne!(hash_name("window"), hash_name("other"));
    assert_ne!(hash_name(""), hash_name("a"));
}

#[test]
fn named_error_from_registry_error() {
    assert!(matches!(named::Error::from(Error::OutOfIds), named::Error::TooManyObjects));
    assert!(matches!(named::Error::from(Error::InvalidId), named::Error::InvalidId));
    assert!(matches!(
        named::Error::from(Error::TypeMismatch { expected: Type::I32, actual: Type::Char }),
        named::Error::TypeMismatch { expected: Type::I32, actual: Type::Char }
    ));
}

#[test]
fn named_error_messages() {
    assert_eq!(
        named::Error::InvalidId.message(),
        "The provided ID is invalid, the item having either been deleted or never existed."
    );
    assert_eq!(
        named::Error::TooManyObjects.message(),
        "Too many objects have been allocated. No Ids are available."
    );
    assert_eq!(
        named::Error::NameNotFound("x").message(),
        "The provided item name does not refer to an item in the registry."
    );
    assert_eq!(
        named::Error::NameAlreadyExists("x").message(),
        "The name already exists, and a new value cannot be inserted"
    );
    assert_eq!(
        named::Error::TypeMismatch { expected: Type::U32, actual: Type::Char }.message(),
        "The type of the stored item (Char) is not hte same as the expected type (U32)"
    );
    assert_eq!(Type::StaticStr.name(), format!("{:?}", Type::StaticStr));
}
