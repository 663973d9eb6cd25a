use crate::codegen::ir::mir::{
    fields_model, FieldModel, MirField, MirSlot, MirType, OwnershipTag, PrimitiveKind, SlotModel,
    TypeModel,
};
use vstd::prelude::*;
use vstd::string::*;

verus! {

/// A type of the calling convention: nothing, a scalar, a length, or a pointer.
#[derive(Clone, Copy, Debug, PartialEq, Eq, Structural)]
pub enum AbiType {
    Void,
    Scalar(PrimitiveKind),
    Length,
    Pointer,
}

/// A parameter of an entry point.
#[derive(Debug, PartialEq, Eq)]
pub struct AbiParam {
    pub name: String,
    pub ty: AbiType,
}

/// What a `AbiParam` says, as plain sequences and values, for use in contracts.
pub struct AbiParamModel {
    pub name: Seq<char>,
    pub ty: AbiType,
}

impl View for AbiParam {
    type V = AbiParamModel;

    open spec fn view(&self) -> AbiParamModel {
        AbiParamModel { name: self.name@, ty: self.ty }
    }
}

/// The parameters of a vector, as plain values.
pub open spec fn abi_params_model(params: Seq<AbiParam>) -> Seq<AbiParamModel> {
    Seq::new(params.len(), |i: int| params[i]@)
}

/// Whether a field holds a scalar.
pub open spec fn is_scalar_field(f: FieldModel) -> bool {
    f.ty matches TypeModel::Primitive(k) && k != PrimitiveKind::Unit
}

/// Whether a record is small enough to be passed as its fields: it has at most
/// four, and each holds a scalar.
pub open spec fn flattenable_spec(fields: Seq<FieldModel>) -> bool {
    fields.len() <= 4 && forall|i: int|
        0 <= i < fields.len() ==> is_scalar_field(#[trigger] fields[i])
}

/// The type of the calling convention in which a value of a field is passed.
pub open spec fn scalar_of(ty: TypeModel) -> AbiType {
    match ty {
        TypeModel::Primitive(k) => AbiType::Scalar(k),
        _ => AbiType::Pointer,
    }
}

/// The parameters that pass a record as its fields.
pub open spec fn flattened_spec(name: Seq<char>, fields: Seq<FieldModel>) -> Seq<AbiParamModel> {
    Seq::new(
        fields.len(),
        |i: int| AbiParamModel { name: name + "_"@ + fields[i].name, ty: scalar_of(fields[i].ty) },
    )
}

/// The one parameter `name` of type `ty`.
pub open spec fn one_param(name: Seq<char>, ty: AbiType) -> Seq<AbiParamModel> {
    seq![AbiParamModel { name, ty }]
}

/// The two parameters that `name` is passed as, each named by `name` and its ending.
pub open spec fn two_params(
    name: Seq<char>,
    first: Seq<char>,
    first_ty: AbiType,
    second: Seq<char>,
    second_ty: AbiType,
) -> Seq<AbiParamModel> {
    seq![
        AbiParamModel { name: name + first, ty: first_ty },
        AbiParamModel { name: name + second, ty: second_ty },
    ]
}

/// The parameters of the calling convention that pass the value of the position
/// `slot` named `name`. A value that is not copied is passed as a pointer. Of
/// the values that are copied, a scalar is passed as itself and the unit not at
/// all; a string, a byte buffer, a list and a map as a length and a pointer; an
/// enum as a discriminant and a pointer to what it carries; a small record as
/// its fields, any other as a pointer; an optional and a handle as a pointer.
pub open spec fn abi_params_spec(name: Seq<char>, slot: SlotModel) -> Seq<AbiParamModel> {
    if slot.tag != OwnershipTag::ByValue {
        one_param(name, AbiType::Pointer)
    } else {
        match slot.ty {
            TypeModel::Primitive(k) => if k == PrimitiveKind::Unit {
                Seq::empty()
            } else {
                one_param(name, AbiType::Scalar(k))
            },
            TypeModel::Str | TypeModel::Bytes | TypeModel::List(_) | TypeModel::Dict(
                _,
                _,
            ) => two_params(name, "_len"@, AbiType::Length, "_ptr"@, AbiType::Pointer),
            TypeModel::Enum { .. } => two_params(
                name,
                "_tag"@,
                AbiType::Scalar(PrimitiveKind::I32),
                "_payload"@,
                AbiType::Pointer,
            ),
            TypeModel::Record { fields, .. } => if flattenable_spec(fields) {
                flattened_spec(name, fields)
            } else {
                one_param(name, AbiType::Pointer)
            },
            TypeModel::Optional(_) | TypeModel::OpaqueHandle { .. } => one_param(
                name,
                AbiType::Pointer,
            ),
        }
    }
}

/// The type of the calling convention in which the value of a result is handed
/// back: nothing for the unit, a scalar as itself, anything else as a pointer.
pub open spec fn abi_return_spec(slot: SlotModel) -> AbiType {
    if slot.tag != OwnershipTag::ByValue {
        AbiType::Pointer
    } else {
        match slot.ty {
            TypeModel::Primitive(k) => if k == PrimitiveKind::Unit {
                AbiType::Void
            } else {
                AbiType::Scalar(k)
            },
            _ => AbiType::Pointer,
        }
    }
}

/// `name` with `suffix` behind it.
pub fn suffixed(name: &str, suffix: &str) -> (r: String)
    ensures
        r@ == name@ + suffix@,
{
    let mut s = name.to_string();
    s.append(suffix);
    s
}

fn single(name: &str, ty: AbiType) -> (r: Vec<AbiParam>)
    ensures
        abi_params_model(r@) == one_param(name@, ty),
{
    let r = vec![AbiParam { name: name.to_string(), ty }];
    assert(abi_params_model(r@) =~= one_param(name@, ty));
    r
}

fn pair(name: &str, first: &str, first_ty: AbiType, second: &str, second_ty: AbiType) -> (r: Vec<
    AbiParam,
>)
    ensures
        abi_params_model(r@) == two_params(name@, first@, first_ty, second@, second_ty),
{
    let r = vec![
        AbiParam { name: suffixed(name, first), ty: first_ty },
        AbiParam { name: suffixed(name, second), ty: second_ty },
    ];
    assert(abi_params_model(r@) =~= two_params(name@, first@, first_ty, second@, second_ty));
    r
}

/// Whether a record is small enough to be passed as its fields.
pub fn flattenable(fields: &Vec<MirField>) -> (r: bool)
    ensures
        r == flattenable_spec(fields_model(fields@)),
{
    if fields.len() > 4 {
        return false;
    }
    let mut i: usize = 0;
    while i < fields.len()
        invariant
            i <= fields.len(),
            forall|k: int| 0 <= k < i ==> is_scalar_field(#[trigger] fields_model(fields@)[k]),
        decreases fields.len() - i,
    {
        let scalar = match &fields[i].ty {
            MirType::Primitive(k) => match k {
                PrimitiveKind::Unit => false,
                _ => true,
            },
            _ => false,
        };
        assert(scalar == is_scalar_field(fields_model(fields@)[i as int]));
        if !scalar {
            return false;
        }
        i += 1;
    }
    true
}

fn flattened(name: &str, fields: &Vec<MirField>) -> (r: Vec<AbiParam>)
    ensures
        abi_params_model(r@) == flattened_spec(name@, fields_model(fields@)),
{
    let mut out: Vec<AbiParam> = Vec::new();
    let mut i: usize = 0;
    while i < fields.len()
        invariant
            i <= fields.len(),
            out.len() == i,
            forall|k: int|
                0 <= k < i ==> (#[trigger] out@[k])@ == flattened_spec(
                    name@,
                    fields_model(fields@),
                )[k],
        decreases fields.len() - i,
    {
        let ty = match &fields[i].ty {
            MirType::Primitive(k) => AbiType::Scalar(*k),
            _ => AbiType::Pointer,
        };
        let mut n = suffixed(name, "_");
        n.append(fields[i].name.as_str());
        assert(ty == scalar_of(fields_model(fields@)[i as int].ty));
        out.push(AbiParam { name: n, ty });
        i += 1;
    }
    assert(abi_params_model(out@) =~= flattened_spec(name@, fields_model(fields@)));
    out
}

/// The parameters of the calling convention that pass the value of the position
/// `slot` named `name`.
pub fn abi_params(name: &str, slot: &MirSlot) -> (r: Vec<AbiParam>)
    ensures
        abi_params_model(r@) == abi_params_spec(name@, slot.model()),
{
    let copied = match slot.tag {
        OwnershipTag::ByValue => true,
        _ => false,
    };
    if !copied {
        return single(name, AbiType::Pointer);
    }
    match &slot.ty {
        MirType::Primitive(k) => match k {
            PrimitiveKind::Unit => {
                let r: Vec<AbiParam> = Vec::new();
                assert(abi_params_model(r@) =~= Seq::empty());
                r
            },
            _ => single(name, AbiType::Scalar(*k)),
        },
        MirType::Str => pair(name, "_len", AbiType::Length, "_ptr", AbiType::Pointer),
        MirType::Bytes => pair(name, "_len", AbiType::Length, "_ptr", AbiType::Pointer),
        MirType::List(_) => pair(name, "_len", AbiType::Length, "_ptr", AbiType::Pointer),
        MirType::Dict(_, _) => pair(name, "_len", AbiType::Length, "_ptr", AbiType::Pointer),
        MirType::Enum { .. } => pair(
            name,
            "_tag",
            AbiType::Scalar(PrimitiveKind::I32),
            "_payload",
            AbiType::Pointer,
        ),
        MirType::Record { fields, .. } => {
            if flattenable(fields) {
                flattened(name, fields)
            } else {
                single(name, AbiType::Pointer)
            }
        },
        MirType::Optional(_) => single(name, AbiType::Pointer),
        MirType::OpaqueHandle { .. } => single(name, AbiType::Pointer),
    }
}

/// The type of the calling convention in which the value of a result is handed
/// back.
pub fn abi_return(slot: &MirSlot) -> (r: AbiType)
    ensures
        r == abi_return_spec(slot.model()),
{
    let copied = match slot.tag {
        OwnershipTag::ByValue => true,
        _ => false,
    };
    if !copied {
        return AbiType::Pointer;
    }
    match &slot.ty {
        MirType::Primitive(k) => match k {
            PrimitiveKind::Unit => AbiType::Void,
            _ => AbiType::Scalar(*k),
        },
        _ => AbiType::Pointer,
    }
}

} // verus!
