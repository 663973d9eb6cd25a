use crate::codegen::ir::hir::raw::ExecutionMode;
use crate::text::views;
use vstd::prelude::*;

verus! {

/// The scalar types of the bridge, and the unit.
#[derive(Clone, Copy, Debug, PartialEq, Eq, Structural)]
pub enum PrimitiveKind {
    Unit,
    Bool,
    I8,
    I16,
    I32,
    I64,
    U8,
    U16,
    U32,
    U64,
    Isize,
    Usize,
    F32,
    F64,
}

/// How a value crosses the boundary.
#[derive(Clone, Copy, Debug, PartialEq, Eq, Structural)]
pub enum OwnershipTag {
    /// It is copied.
    ByValue,
    /// It is moved: the receiver owns it from then on, and has to release it.
    Owned,
    /// It is lent: nothing changes hands.
    Borrowed,
    /// It is known by a handle, and released through the handle.
    Handle,
}

/// A type of the bridge. Every native type that can cross is one of these;
/// nothing else is.
#[derive(Debug, PartialEq, Eq)]
pub enum MirType {
    Primitive(PrimitiveKind),
    Str,
    Bytes,
    Optional(Box<MirType>),
    List(Box<MirType>),
    Dict(Box<MirType>, Box<MirType>),
    Record { name: String, fields: Vec<MirField> },
    Enum { name: String, variants: Vec<MirVariant> },
    OpaqueHandle { name: String },
}

/// A field known by name, with its bridge type.
#[derive(Debug, PartialEq, Eq)]
pub struct MirField {
    pub name: String,
    pub ty: MirType,
}

/// What a variant carries: nothing, fields known by place, or fields known by
/// name.
#[derive(Debug, PartialEq, Eq)]
pub enum MirPayload {
    Unit,
    Tuple { types: Vec<MirType> },
    Struct { fields: Vec<MirField> },
}

/// One variant of an enum of the bridge.
#[derive(Debug, PartialEq, Eq)]
pub struct MirVariant {
    pub name: String,
    pub payload: MirPayload,
}

/// A value position: its type and how the value crosses.
#[derive(Debug, PartialEq, Eq)]
pub struct MirSlot {
    pub ty: MirType,
    pub tag: OwnershipTag,
}

/// A parameter of a bridged function.
#[derive(Debug, PartialEq, Eq)]
pub struct MirParam {
    pub name: String,
    pub slot: MirSlot,
}

/// A bridged function: its value positions and how it runs.
#[derive(Debug, PartialEq, Eq)]
pub struct MirFunction {
    pub params: Vec<MirParam>,
    pub ret: MirSlot,
    pub fallible: Option<MirType>,
    pub mode: ExecutionMode,
}

/// What a bridged item is: a function, or a data type with the way its values cross.
#[derive(Debug, PartialEq, Eq)]
pub enum MirItemKind {
    Function { function: MirFunction },
    Data { slot: MirSlot },
}

/// A bridged item. `id` is the key under which every artifact knows it.
#[derive(Debug, PartialEq, Eq)]
pub struct MirItem {
    pub id: String,
    pub path: Vec<String>,
    pub kind: MirItemKind,
}

/// All bridged items of a run, in the order of their identifiers.
#[derive(Debug, PartialEq, Eq)]
pub struct MirDocument {
    pub items: Vec<MirItem>,
}

/// What a `MirType` says, as plain sequences and values, for use in contracts.
pub enum TypeModel {
    Primitive(PrimitiveKind),
    Str,
    Bytes,
    Optional(Box<TypeModel>),
    List(Box<TypeModel>),
    Dict(Box<TypeModel>, Box<TypeModel>),
    Record { name: Seq<char>, fields: Seq<FieldModel> },
    Enum { name: Seq<char>, variants: Seq<VariantModel> },
    OpaqueHandle { name: Seq<char> },
}

/// What a `MirField` says, as plain sequences and values, for use in contracts.
pub struct FieldModel {
    pub name: Seq<char>,
    pub ty: TypeModel,
}

/// What a `MirPayload` says, as plain sequences and values, for use in contracts.
pub enum PayloadModel {
    Unit,
    Tuple { types: Seq<TypeModel> },
    Struct { fields: Seq<FieldModel> },
}

/// What a `MirVariant` says, as plain sequences and values, for use in contracts.
pub struct VariantModel {
    pub name: Seq<char>,
    pub payload: PayloadModel,
}

/// What a `MirSlot` says, as plain sequences and values, for use in contracts.
pub struct SlotModel {
    pub ty: TypeModel,
    pub tag: OwnershipTag,
}

/// What a `MirParam` says, as plain sequences and values, for use in contracts.
pub struct ParamModel {
    pub name: Seq<char>,
    pub slot: SlotModel,
}

/// What a `MirFunction` says, as plain sequences and values, for use in contracts.
pub struct FunctionModel {
    pub params: Seq<ParamModel>,
    pub ret: SlotModel,
    pub fallible: Option<TypeModel>,
    pub mode: ExecutionMode,
}

/// What a `MirItemKind` says, as plain sequences and values, for use in contracts.
pub enum ItemKindModel {
    Function { function: FunctionModel },
    Data { slot: SlotModel },
}

/// What a `MirItem` says, as plain sequences and values, for use in contracts.
pub struct MirItemModel {
    pub id: Seq<char>,
    pub path: Seq<Seq<char>>,
    pub kind: ItemKindModel,
}

impl MirType {
    /// The value as plain sequences and values, for use in contracts.
    pub open spec fn model(self) -> TypeModel
        decreases self,
    {
        match self {
            MirType::Primitive(k) => TypeModel::Primitive(k),
            MirType::Str => TypeModel::Str,
            MirType::Bytes => TypeModel::Bytes,
            MirType::Optional(t) => TypeModel::Optional(Box::new(t.model())),
            MirType::List(t) => TypeModel::List(Box::new(t.model())),
            MirType::Dict(k, v) => TypeModel::Dict(Box::new(k.model()), Box::new(v.model())),
            MirType::Record { name, fields } => TypeModel::Record {
                name: name@,
                fields: fields_model(fields@),
            },
            MirType::Enum { name, variants } => TypeModel::Enum {
                name: name@,
                variants: variants_model(variants@),
            },
            MirType::OpaqueHandle { name } => TypeModel::OpaqueHandle { name: name@ },
        }
    }
}

/// The types of a vector, as plain values.
pub open spec fn types_model(types: Seq<MirType>) -> Seq<TypeModel>
    decreases types,
{
    Seq::new(
        types.len(),
        |i: int|
            if 0 <= i < types.len() {
                types[i].model()
            } else {
                TypeModel::Str
            },
    )
}

/// The fields of a vector, as plain values.
pub open spec fn fields_model(fields: Seq<MirField>) -> Seq<FieldModel>
    decreases fields,
{
    Seq::new(
        fields.len(),
        |i: int|
            if 0 <= i < fields.len() {
                FieldModel { name: fields[i].name@, ty: fields[i].ty.model() }
            } else {
                FieldModel { name: Seq::empty(), ty: TypeModel::Str }
            },
    )
}

/// What a variant carries, as plain values.
pub open spec fn payload_model(payload: MirPayload) -> PayloadModel
    decreases payload,
{
    match payload {
        MirPayload::Unit => PayloadModel::Unit,
        MirPayload::Tuple { types } => PayloadModel::Tuple { types: types_model(types@) },
        MirPayload::Struct { fields } => PayloadModel::Struct { fields: fields_model(fields@) },
    }
}

/// The variants of a vector, as plain values.
pub open spec fn variants_model(variants: Seq<MirVariant>) -> Seq<VariantModel>
    decreases variants,
{
    Seq::new(
        variants.len(),
        |i: int|
            if 0 <= i < variants.len() {
                VariantModel {
                    name: variants[i].name@,
                    payload: payload_model(variants[i].payload),
                }
            } else {
                VariantModel { name: Seq::empty(), payload: PayloadModel::Unit }
            },
    )
}

impl MirSlot {
    /// The value as plain sequences and values, for use in contracts.
    pub open spec fn model(self) -> SlotModel {
        SlotModel { ty: self.ty.model(), tag: self.tag }
    }
}

impl MirParam {
    /// The value as plain sequences and values, for use in contracts.
    pub open spec fn model(self) -> ParamModel {
        ParamModel { name: self.name@, slot: self.slot.model() }
    }
}

impl MirFunction {
    /// The value as plain sequences and values, for use in contracts.
    pub open spec fn model(self) -> FunctionModel {
        FunctionModel {
            params: Seq::new(self.params@.len(), |i: int| self.params@[i].model()),
            ret: self.ret.model(),
            fallible: match self.fallible {
                Some(t) => Some(t.model()),
                None => None,
            },
            mode: self.mode,
        }
    }
}

impl MirItemKind {
    /// The value as plain sequences and values, for use in contracts.
    pub open spec fn model(self) -> ItemKindModel {
        match self {
            MirItemKind::Function { function } => ItemKindModel::Function {
                function: function.model(),
            },
            MirItemKind::Data { slot } => ItemKindModel::Data { slot: slot.model() },
        }
    }
}

impl MirItem {
    /// The value as plain sequences and values, for use in contracts.
    pub open spec fn model(self) -> MirItemModel {
        MirItemModel { id: self.id@, path: views(self.path@), kind: self.kind.model() }
    }
}

/// The items of a vector, as plain values.
pub open spec fn items_model(items: Seq<MirItem>) -> Seq<MirItemModel> {
    Seq::new(items.len(), |i: int| items[i].model())
}

impl MirDocument {
    /// The value as plain sequences and values, for use in contracts.
    pub open spec fn model(self) -> Seq<MirItemModel> {
        items_model(self.items@)
    }
}

} // verus!
