use crate::codegen::generator::abi::AbiType;
use crate::codegen::ir::mir::{OwnershipTag, PrimitiveKind};
use vstd::prelude::*;
use vstd::string::*;

verus! {

/// The native name of a primitive.
pub open spec fn primitive_name_spec(k: PrimitiveKind) -> Seq<char> {
    match k {
        PrimitiveKind::Unit => "()"@,
        PrimitiveKind::Bool => "bool"@,
        PrimitiveKind::I8 => "i8"@,
        PrimitiveKind::I16 => "i16"@,
        PrimitiveKind::I32 => "i32"@,
        PrimitiveKind::I64 => "i64"@,
        PrimitiveKind::U8 => "u8"@,
        PrimitiveKind::U16 => "u16"@,
        PrimitiveKind::U32 => "u32"@,
        PrimitiveKind::U64 => "u64"@,
        PrimitiveKind::Isize => "isize"@,
        PrimitiveKind::Usize => "usize"@,
        PrimitiveKind::F32 => "f32"@,
        PrimitiveKind::F64 => "f64"@,
    }
}

/// The name of a primitive in the interface description.
pub open spec fn c_primitive_spec(k: PrimitiveKind) -> Seq<char> {
    match k {
        PrimitiveKind::Unit => "void"@,
        PrimitiveKind::Bool => "bool"@,
        PrimitiveKind::I8 => "int8_t"@,
        PrimitiveKind::I16 => "int16_t"@,
        PrimitiveKind::I32 => "int32_t"@,
        PrimitiveKind::I64 => "int64_t"@,
        PrimitiveKind::U8 => "uint8_t"@,
        PrimitiveKind::U16 => "uint16_t"@,
        PrimitiveKind::U32 => "uint32_t"@,
        PrimitiveKind::U64 => "uint64_t"@,
        PrimitiveKind::Isize => "intptr_t"@,
        PrimitiveKind::Usize => "uintptr_t"@,
        PrimitiveKind::F32 => "float"@,
        PrimitiveKind::F64 => "double"@,
    }
}

/// The name of a primitive on the managed side.
pub open spec fn managed_primitive_spec(k: PrimitiveKind) -> Seq<char> {
    match k {
        PrimitiveKind::Unit => "void"@,
        PrimitiveKind::Bool => "bool"@,
        PrimitiveKind::F32 => "double"@,
        PrimitiveKind::F64 => "double"@,
        _ => "int"@,
    }
}

/// The name of a type of the calling convention in the native glue.
pub open spec fn native_type_spec(t: AbiType) -> Seq<char> {
    match t {
        AbiType::Void => "()"@,
        AbiType::Scalar(k) => primitive_name_spec(k),
        AbiType::Length => "usize"@,
        AbiType::Pointer => "Ptr"@,
    }
}

/// The name of a type of the calling convention in the interface description.
pub open spec fn c_type_spec(t: AbiType) -> Seq<char> {
    match t {
        AbiType::Void => "void"@,
        AbiType::Scalar(k) => c_primitive_spec(k),
        AbiType::Length => "uintptr_t"@,
        AbiType::Pointer => "void*"@,
    }
}

/// The word by which the glue knows a way of crossing.
pub open spec fn tag_word_spec(tag: OwnershipTag) -> Seq<char> {
    match tag {
        OwnershipTag::ByValue => "value"@,
        OwnershipTag::Owned => "owned"@,
        OwnershipTag::Borrowed => "borrowed"@,
        OwnershipTag::Handle => "handle"@,
    }
}

/// The native name of a primitive.
pub fn primitive_name(k: PrimitiveKind) -> (r: &'static str)
    ensures
        r@ == primitive_name_spec(k),
{
    match k {
        PrimitiveKind::Unit => "()",
        PrimitiveKind::Bool => "bool",
        PrimitiveKind::I8 => "i8",
        PrimitiveKind::I16 => "i16",
        PrimitiveKind::I32 => "i32",
        PrimitiveKind::I64 => "i64",
        PrimitiveKind::U8 => "u8",
        PrimitiveKind::U16 => "u16",
        PrimitiveKind::U32 => "u32",
        PrimitiveKind::U64 => "u64",
        PrimitiveKind::Isize => "isize",
        PrimitiveKind::Usize => "usize",
        PrimitiveKind::F32 => "f32",
        PrimitiveKind::F64 => "f64",
    }
}

/// The name of a primitive in the interface description.
pub fn c_primitive(k: PrimitiveKind) -> (r: &'static str)
    ensures
        r@ == c_primitive_spec(k),
{
    match k {
        PrimitiveKind::Unit => "void",
        PrimitiveKind::Bool => "bool",
        PrimitiveKind::I8 => "int8_t",
        PrimitiveKind::I16 => "int16_t",
        PrimitiveKind::I32 => "int32_t",
        PrimitiveKind::I64 => "int64_t",
        PrimitiveKind::U8 => "uint8_t",
        PrimitiveKind::U16 => "uint16_t",
        PrimitiveKind::U32 => "uint32_t",
        PrimitiveKind::U64 => "uint64_t",
        PrimitiveKind::Isize => "intptr_t",
        PrimitiveKind::Usize => "uintptr_t",
        PrimitiveKind::F32 => "float",
        PrimitiveKind::F64 => "double",
    }
}

/// The name of a primitive on the managed side.
pub fn managed_primitive(k: PrimitiveKind) -> (r: &'static str)
    ensures
        r@ == managed_primitive_spec(k),
{
    match k {
        PrimitiveKind::Unit => "void",
        PrimitiveKind::Bool => "bool",
        PrimitiveKind::F32 => "double",
        PrimitiveKind::F64 => "double",
        _ => "int",
    }
}

/// The name of a type of the calling convention in the native glue.
pub fn native_type(t: AbiType) -> (r: &'static str)
    ensures
        r@ == native_type_spec(t),
{
    match t {
        AbiType::Void => "()",
        AbiType::Scalar(k) => primitive_name(k),
        AbiType::Length => "usize",
        AbiType::Pointer => "Ptr",
    }
}

/// The name of a type of the calling convention in the interface description.
pub fn c_type(t: AbiType) -> (r: &'static str)
    ensures
        r@ == c_type_spec(t),
{
    match t {
        AbiType::Void => "void",
        AbiType::Scalar(k) => c_primitive(k),
        AbiType::Length => "uintptr_t",
        AbiType::Pointer => "void*",
    }
}

/// The word by which the glue knows a way of crossing.
pub fn tag_word(tag: OwnershipTag) -> (r: &'static str)
    ensures
        r@ == tag_word_spec(tag),
{
    match tag {
        OwnershipTag::ByValue => "value",
        OwnershipTag::Owned => "owned",
        OwnershipTag::Borrowed => "borrowed",
        OwnershipTag::Handle => "handle",
    }
}

} // verus!
