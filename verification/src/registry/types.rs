//! The ids, indices and type tags of the registry.
pub use super::slot::{Id, Version};
use vstd::prelude::*;

verus! {

/// The index of a slot.
pub type SlotIndex = super::slot::Index;

/// Enumerates the types of data that can be stored in a registry. No
/// guarantee is made that storing an object of type `T` will occupy only
/// `std::mem::size_of::<T>()` bytes.
#[derive(Clone, Copy, Debug, PartialEq, Eq, Structural)]
pub enum Type {
    Unknown,
    // 128-bit types
    U128,
    I128,
    /// A boxed value of any type.
    Any,
    /// A `&'static str`.
    StaticStr,
    // 64-bit types
    U64,
    I64,
    F64,
    // 32-bit types
    U32,
    I32,
    F32,
    Char,
}

/// The name of a type, as `Debug` writes it.
pub open spec fn debug_name(t: Type) -> Seq<char> {
    match t {
        Type::Unknown => "Unknown"@,
        Type::U128 => "U128"@,
        Type::I128 => "I128"@,
        Type::Any => "Any"@,
        Type::StaticStr => "StaticStr"@,
        Type::U64 => "U64"@,
        Type::I64 => "I64"@,
        Type::F64 => "F64"@,
        Type::U32 => "U32"@,
        Type::I32 => "I32"@,
        Type::F32 => "F32"@,
        Type::Char => "Char"@,
    }
}

impl Type {
    /// The type's name, as `Debug` writes it.
    pub fn name(self) -> (r: &'static str)
        ensures
            r@ == debug_name(self),
    {
        match self {
            Type::Unknown => "Unknown",
            Type::U128 => "U128",
            Type::I128 => "I128",
            Type::Any => "Any",
            Type::StaticStr => "StaticStr",
            Type::U64 => "U64",
            Type::I64 => "I64",
            Type::F64 => "F64",
            Type::U32 => "U32",
            Type::I32 => "I32",
            Type::F32 => "F32",
            Type::Char => "Char",
        }
    }
}

/// The index of an object in an object storage.
#[derive(Clone, Copy, PartialEq, Eq, Debug, Structural)]
pub struct ObjectIndex(pub u16);

/// A value that a registry holds, with its type.
#[derive(Clone, Copy, PartialEq, Eq, Debug)]
pub enum Value {
    U128(u128),
    I128(i128),
    StaticStr(&'static str),
    U64(u64),
    I64(i64),
    U32(u32),
    I32(i32),
    Char(char),
}

impl Value {
    /// The type tag of the value.
    pub open spec fn object_type(self) -> Type {
        match self {
            Value::U128(_) => Type::U128,
            Value::I128(_) => Type::I128,
            Value::StaticStr(_) => Type::StaticStr,
            Value::U64(_) => Type::U64,
            Value::I64(_) => Type::I64,
            Value::U32(_) => Type::U32,
            Value::I32(_) => Type::I32,
            Value::Char(_) => Type::Char,
        }
    }
}

/// A type that a registry can hold.
pub trait RegistryObject: Sized + Copy {
    /// The type tag under which values of this type are stored.
    const TYPE: Type;

    /// The registry value that stands for `self`.
    spec fn to_value(self) -> Value;

    /// The tag of the value is the type's tag, and no two values of the
    /// type stand for the same registry value.
    proof fn lemma_to_value(a: Self, b: Self)
        ensures
            a.to_value().object_type() == Self::TYPE,
            a.to_value() == b.to_value() ==> a == b,
    ;
}

impl RegistryObject for u128 {
    const TYPE: Type = Type::U128;

    open spec fn to_value(self) -> Value {
        Value::U128(self)
    }

    proof fn lemma_to_value(a: Self, b: Self) {
    }
}

impl RegistryObject for i128 {
    const TYPE: Type = Type::I128;

    open spec fn to_value(self) -> Value {
        Value::I128(self)
    }

    proof fn lemma_to_value(a: Self, b: Self) {
    }
}

impl RegistryObject for &'static str {
    const TYPE: Type = Type::StaticStr;

    open spec fn to_value(self) -> Value {
        Value::StaticStr(self)
    }

    proof fn lemma_to_value(a: Self, b: Self) {
    }
}

impl RegistryObject for u64 {
    const TYPE: Type = Type::U64;

    open spec fn to_value(self) -> Value {
        Value::U64(self)
    }

    proof fn lemma_to_value(a: Self, b: Self) {
    }
}

impl RegistryObject for i64 {
    const TYPE: Type = Type::I64;

    open spec fn to_value(self) -> Value {
        Value::I64(self)
    }

    proof fn lemma_to_value(a: Self, b: Self) {
    }
}

impl RegistryObject for u32 {
    const TYPE: Type = Type::U32;

    open spec fn to_value(self) -> Value {
        Value::U32(self)
    }

    proof fn lemma_to_value(a: Self, b: Self) {
    }
}

impl RegistryObject for i32 {
    const TYPE: Type = Type::I32;

    open spec fn to_value(self) -> Value {
        Value::I32(self)
    }

    proof fn lemma_to_value(a: Self, b: Self) {
    }
}

impl RegistryObject for char {
    const TYPE: Type = Type::Char;

    open spec fn to_value(self) -> Value {
        Value::Char(self)
    }

    proof fn lemma_to_value(a: Self, b: Self) {
    }
}

} // verus!
