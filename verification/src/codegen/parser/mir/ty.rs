use crate::codegen::ir::hir::hierarchical::{HirPack, ItemModel, PackModel};
use crate::codegen::ir::hir::raw::{
    Marks, RawDeclKind, RawField, RawGeneric, RawPayload, RawType, RawVariant,
};
use crate::codegen::ir::mir::{
    fields_model, payload_model, types_model, variants_model, FieldModel, MirField, MirPayload,
    MirType, MirVariant, OwnershipTag, PayloadModel, PrimitiveKind, TypeModel, VariantModel,
};
use crate::codegen::ir::path::{
    child_path, last_segment, last_segment_spec, parent_path, parent_spec,
};
use crate::codegen::parser::hir::hierarchical::pub_use::{
    lemma_resolved_is_in_range, resolve, resolve_spec, Resolved,
};
use crate::text::{str_eq, views};
use vstd::prelude::*;
use vstd::string::*;

verus! {

/// The three ways in which a native type fails to cross.
#[derive(Clone, Copy, Debug, PartialEq, Eq, Structural)]
pub enum FailureKind {
    /// The type has no counterpart among the types of the bridge.
    UnsupportedType,
    /// The type is a generic parameter that stands for no concrete type.
    UnresolvedGeneric,
    /// The source asks for more than one way of crossing.
    ConflictingOwnership,
}

/// A failure to lower a type, with the construct at fault.
#[derive(Debug, PartialEq, Eq)]
pub struct TypeFailure {
    pub kind: FailureKind,
    pub construct: String,
}

/// What a `TypeFailure` says, as plain sequences and values, for use in contracts.
pub struct FailureModel {
    pub kind: FailureKind,
    pub construct: Seq<char>,
}

impl View for TypeFailure {
    type V = FailureModel;

    open spec fn view(&self) -> FailureModel {
        FailureModel { kind: self.kind, construct: self.construct@ }
    }
}

/// A lowered type, and the way in which a value of it crosses where nothing is
/// said at the place of use.
pub struct Lowered {
    pub ty: TypeModel,
    pub tag: OwnershipTag,
}

/// The failure that says that `construct` is not supported.
pub open spec fn unsupported_spec(construct: Seq<char>) -> FailureModel {
    FailureModel { kind: FailureKind::UnsupportedType, construct }
}

/// The type `ty`, of which values are copied.
pub open spec fn by_value(ty: TypeModel) -> Lowered {
    Lowered { ty, tag: OwnershipTag::ByValue }
}

/// The primitive that a native name stands for.
pub open spec fn primitive_named(name: Seq<char>) -> Option<PrimitiveKind> {
    if name == "()"@ {
        Some(PrimitiveKind::Unit)
    } else if name == "bool"@ {
        Some(PrimitiveKind::Bool)
    } else if name == "i8"@ {
        Some(PrimitiveKind::I8)
    } else if name == "i16"@ {
        Some(PrimitiveKind::I16)
    } else if name == "i32"@ {
        Some(PrimitiveKind::I32)
    } else if name == "i64"@ {
        Some(PrimitiveKind::I64)
    } else if name == "u8"@ {
        Some(PrimitiveKind::U8)
    } else if name == "u16"@ {
        Some(PrimitiveKind::U16)
    } else if name == "u32"@ {
        Some(PrimitiveKind::U32)
    } else if name == "u64"@ {
        Some(PrimitiveKind::U64)
    } else if name == "isize"@ {
        Some(PrimitiveKind::Isize)
    } else if name == "usize"@ {
        Some(PrimitiveKind::Usize)
    } else if name == "f32"@ {
        Some(PrimitiveKind::F32)
    } else if name == "f64"@ {
        Some(PrimitiveKind::F64)
    } else {
        None
    }
}

/// The way of crossing that the marks of a data type ask for; none where they
/// ask for more than one.
pub open spec fn marks_tag_spec(marks: Marks) -> Option<OwnershipTag> {
    if marks.opaque {
        if marks.owned || marks.borrowed {
            None
        } else {
            Some(OwnershipTag::Handle)
        }
    } else if marks.owned {
        if marks.borrowed {
            None
        } else {
            Some(OwnershipTag::Owned)
        }
    } else if marks.borrowed {
        Some(OwnershipTag::Borrowed)
    } else {
        Some(OwnershipTag::ByValue)
    }
}

/// The place of the first generic parameter at or after `from` named `name`.
pub open spec fn generic_index_from(
    generics: Seq<RawGeneric>,
    name: Seq<char>,
    from: int,
) -> Option<int>
    decreases generics.len() - from,
{
    if from < 0 || from >= generics.len() {
        None
    } else if generics[from].name@ == name {
        Some(from)
    } else {
        generic_index_from(generics, name, from + 1)
    }
}

/// The bridge type of the native type `e`, written in the module `scope` of the
/// pack, inside a function with the generic parameters `generics`.
///
/// A name is taken, in this order, for a generic parameter, for a type that the
/// bridge knows by itself, and for an item that the name leads to from the
/// module. `depth` bounds how many items and generic bindings may be entered one
/// inside another; a type that needs more does not cross.
pub open spec fn lower_type_spec(
    pack: PackModel,
    scope: Seq<Seq<char>>,
    generics: Seq<RawGeneric>,
    e: RawType,
    depth: nat,
) -> Result<Lowered, FailureModel>
    decreases depth, 0nat, 0nat, e,
{
    match e {
        RawType::Named { name, args } => match generic_index_from(generics, name@, 0) {
            Some(g) => if args@.len() != 0 {
                Err(unsupported_spec(name@))
            } else {
                match generics[g].binding {
                    None => Err(
                        FailureModel { kind: FailureKind::UnresolvedGeneric, construct: name@ },
                    ),
                    Some(bound) => if depth == 0 {
                        Err(unsupported_spec(name@))
                    } else {
                        lower_type_spec(pack, scope, Seq::empty(), bound, (depth - 1) as nat)
                    },
                }
            },
            None => if args@.len() == 0 {
                match primitive_named(name@) {
                    Some(k) => Ok(by_value(TypeModel::Primitive(k))),
                    None => if name@ == "String"@ || name@ == "str"@ {
                        Ok(by_value(TypeModel::Str))
                    } else {
                        match resolve_spec(pack, scope.push(name@)) {
                            Resolved::Item(i) => if depth == 0 {
                                Err(unsupported_spec(name@))
                            } else {
                                lower_item_type_spec(pack, pack.items[i as int], (depth - 1) as nat)
                            },
                            _ => Err(unsupported_spec(name@)),
                        }
                    },
                }
            } else if args@.len() == 1 {
                if name@ == "Vec"@ {
                    match lower_type_spec(pack, scope, generics, args@[0], depth) {
                        Ok(l) => if l.ty == TypeModel::Primitive(PrimitiveKind::U8) {
                            Ok(by_value(TypeModel::Bytes))
                        } else {
                            Ok(by_value(TypeModel::List(Box::new(l.ty))))
                        },
                        Err(f) => Err(f),
                    }
                } else if name@ == "Option"@ {
                    match lower_type_spec(pack, scope, generics, args@[0], depth) {
                        Ok(l) => Ok(by_value(TypeModel::Optional(Box::new(l.ty)))),
                        Err(f) => Err(f),
                    }
                } else if name@ == "Box"@ {
                    lower_type_spec(pack, scope, generics, args@[0], depth)
                } else {
                    Err(unsupported_spec(name@))
                }
            } else if args@.len() == 2 {
                if name@ == "HashMap"@ || name@ == "BTreeMap"@ {
                    match lower_type_spec(pack, scope, generics, args@[0], depth) {
                        Ok(k) => match lower_type_spec(pack, scope, generics, args@[1], depth) {
                            Ok(v) => Ok(by_value(TypeModel::Dict(Box::new(k.ty), Box::new(v.ty)))),
                            Err(f) => Err(f),
                        },
                        Err(f) => Err(f),
                    }
                } else {
                    Err(unsupported_spec(name@))
                }
            } else {
                Err(unsupported_spec(name@))
            },
        },
        RawType::Reference { inner } => Err(unsupported_spec("&"@)),
        RawType::Pointer { handle } => match handle {
            Some(h) => Ok(
                Lowered { ty: TypeModel::OpaqueHandle { name: h@ }, tag: OwnershipTag::Handle },
            ),
            None => Err(unsupported_spec("*"@)),
        },
        RawType::TraitObject { name } => Err(unsupported_spec(name@)),
    }
}

/// The bridge types of the first `n` of `types`.
pub open spec fn lower_types_spec(
    pack: PackModel,
    scope: Seq<Seq<char>>,
    types: Seq<RawType>,
    n: nat,
    depth: nat,
) -> Result<Seq<TypeModel>, FailureModel>
    decreases depth, 1nat, n,
{
    if n == 0 || n > types.len() {
        Ok(Seq::empty())
    } else {
        match lower_types_spec(pack, scope, types, (n - 1) as nat, depth) {
            Err(f) => Err(f),
            Ok(done) => match lower_type_spec(pack, scope, Seq::empty(), types[n - 1], depth) {
                Err(f) => Err(f),
                Ok(l) => Ok(done.push(l.ty)),
            },
        }
    }
}

/// The first `n` of `fields` with their bridge types.
pub open spec fn lower_fields_spec(
    pack: PackModel,
    scope: Seq<Seq<char>>,
    fields: Seq<RawField>,
    n: nat,
    depth: nat,
) -> Result<Seq<FieldModel>, FailureModel>
    decreases depth, 1nat, n,
{
    if n == 0 || n > fields.len() {
        Ok(Seq::empty())
    } else {
        match lower_fields_spec(pack, scope, fields, (n - 1) as nat, depth) {
            Err(f) => Err(f),
            Ok(done) => match lower_type_spec(pack, scope, Seq::empty(), fields[n - 1].ty, depth) {
                Err(f) => Err(f),
                Ok(l) => Ok(done.push(FieldModel { name: fields[n - 1].name@, ty: l.ty })),
            },
        }
    }
}

/// What a variant carries, with the shape it has in the source.
pub open spec fn lower_payload_spec(
    pack: PackModel,
    scope: Seq<Seq<char>>,
    payload: RawPayload,
    depth: nat,
) -> Result<PayloadModel, FailureModel>
    decreases depth, 2nat, 0nat,
{
    match payload {
        RawPayload::Unit => Ok(PayloadModel::Unit),
        RawPayload::Tuple { types } => match lower_types_spec(
            pack,
            scope,
            types@,
            types@.len(),
            depth,
        ) {
            Ok(ts) => Ok(PayloadModel::Tuple { types: ts }),
            Err(f) => Err(f),
        },
        RawPayload::Struct { fields } => match lower_fields_spec(
            pack,
            scope,
            fields@,
            fields@.len(),
            depth,
        ) {
            Ok(fs) => Ok(PayloadModel::Struct { fields: fs }),
            Err(f) => Err(f),
        },
    }
}

/// The first `n` of `variants` with what they carry.
pub open spec fn lower_variants_spec(
    pack: PackModel,
    scope: Seq<Seq<char>>,
    variants: Seq<RawVariant>,
    n: nat,
    depth: nat,
) -> Result<Seq<VariantModel>, FailureModel>
    decreases depth, 3nat, n,
{
    if n == 0 || n > variants.len() {
        Ok(Seq::empty())
    } else {
        match lower_variants_spec(pack, scope, variants, (n - 1) as nat, depth) {
            Err(f) => Err(f),
            Ok(done) => match lower_payload_spec(pack, scope, variants[n - 1].payload, depth) {
                Err(f) => Err(f),
                Ok(p) => Ok(done.push(VariantModel { name: variants[n - 1].name@, payload: p })),
            },
        }
    }
}

/// The bridge type that the data type or alias `item` stands for where it is
/// named. An item that mirrors a type, and one marked opaque, is a handle; a
/// struct is a record of its fields, an enum the list of its variants, each
/// lowered in the module of the item; an alias is what it is an alias of.
pub open spec fn lower_item_type_spec(pack: PackModel, item: ItemModel, depth: nat) -> Result<
    Lowered,
    FailureModel,
>
    decreases depth, 4nat, 0nat,
{
    let scope = parent_spec(item.path);
    let name = last_segment_spec(item.path);
    match item.decl.mirror {
        Some(target) => match resolve_spec(pack, views(target@)) {
            Resolved::Item(t) => Ok(
                Lowered {
                    ty: TypeModel::OpaqueHandle {
                        name: last_segment_spec(pack.items[t as int].path),
                    },
                    tag: OwnershipTag::Handle,
                },
            ),
            _ => Err(unsupported_spec(name)),
        },
        None => match item.decl.kind {
            RawDeclKind::Struct { fields, marks } => match marks_tag_spec(marks) {
                None => Err(
                    FailureModel { kind: FailureKind::ConflictingOwnership, construct: name },
                ),
                Some(tag) => if marks.opaque {
                    Ok(Lowered { ty: TypeModel::OpaqueHandle { name }, tag })
                } else {
                    match lower_fields_spec(pack, scope, fields@, fields@.len(), depth) {
                        Ok(fs) => Ok(Lowered { ty: TypeModel::Record { name, fields: fs }, tag }),
                        Err(f) => Err(f),
                    }
                },
            },
            RawDeclKind::Enum { variants, marks } => match marks_tag_spec(marks) {
                None => Err(
                    FailureModel { kind: FailureKind::ConflictingOwnership, construct: name },
                ),
                Some(tag) => if marks.opaque {
                    Ok(Lowered { ty: TypeModel::OpaqueHandle { name }, tag })
                } else {
                    match lower_variants_spec(pack, scope, variants@, variants@.len(), depth) {
                        Ok(vs) => Ok(Lowered { ty: TypeModel::Enum { name, variants: vs }, tag }),
                        Err(f) => Err(f),
                    }
                },
            },
            RawDeclKind::TypeAlias { aliased } => lower_type_spec(
                pack,
                scope,
                Seq::empty(),
                aliased,
                depth,
            ),
            _ => Err(unsupported_spec(name)),
        },
    }
}

/// The outcome of lowering a type, as plain values.
pub open spec fn type_outcome(r: Result<(MirType, OwnershipTag), TypeFailure>) -> Result<
    Lowered,
    FailureModel,
> {
    match r {
        Ok(l) => Ok(Lowered { ty: l.0.model(), tag: l.1 }),
        Err(f) => Err(f@),
    }
}

/// The outcome of lowering a list of types, as plain values.
pub open spec fn types_outcome(r: Result<Vec<MirType>, TypeFailure>) -> Result<
    Seq<TypeModel>,
    FailureModel,
> {
    match r {
        Ok(ts) => Ok(types_model(ts@)),
        Err(f) => Err(f@),
    }
}

/// The outcome of lowering fields, as plain values.
pub open spec fn fields_outcome(r: Result<Vec<MirField>, TypeFailure>) -> Result<
    Seq<FieldModel>,
    FailureModel,
> {
    match r {
        Ok(fs) => Ok(fields_model(fs@)),
        Err(f) => Err(f@),
    }
}

/// The outcome of lowering what a variant carries, as plain values.
pub open spec fn payload_outcome(r: Result<MirPayload, TypeFailure>) -> Result<
    PayloadModel,
    FailureModel,
> {
    match r {
        Ok(p) => Ok(payload_model(p)),
        Err(f) => Err(f@),
    }
}

/// The outcome of lowering variants, as plain values.
pub open spec fn variants_outcome(r: Result<Vec<MirVariant>, TypeFailure>) -> Result<
    Seq<VariantModel>,
    FailureModel,
> {
    match r {
        Ok(vs) => Ok(variants_model(vs@)),
        Err(f) => Err(f@),
    }
}

/// Whether every generic parameter stands for a concrete type.
pub open spec fn all_bound(generics: Seq<RawGeneric>) -> bool {
    forall|g: int| 0 <= g < generics.len() ==> (#[trigger] generics[g]).binding is Some
}

/// Whether the marks of `item`, if it is a data type, ask for one way of
/// crossing at most.
pub open spec fn marks_agree(item: ItemModel) -> bool {
    match item.decl.kind {
        RawDeclKind::Struct { marks, .. } => marks_tag_spec(marks) is Some,
        RawDeclKind::Enum { marks, .. } => marks_tag_spec(marks) is Some,
        _ => true,
    }
}

/// Whether the marks of every data type of the pack agree.
pub open spec fn all_marks_agree(pack: PackModel) -> bool {
    forall|k: int| 0 <= k < pack.items.len() ==> marks_agree(#[trigger] pack.items[k])
}

/// Whether an outcome is a success or the failure that says that a type is not
/// supported.
pub open spec fn closed<T>(r: Result<T, FailureModel>) -> bool {
    r matches Err(f) ==> f.kind == FailureKind::UnsupportedType
}

/// Lowering is closed. Where every generic parameter in sight stands for a
/// concrete type and no data type carries marks that disagree, a native type is
/// lowered to a bridge type, complete in all its parts, or it is refused as
/// unsupported; nothing else comes out.
pub proof fn lemma_lowering_is_closed(
    pack: PackModel,
    scope: Seq<Seq<char>>,
    generics: Seq<RawGeneric>,
    e: RawType,
    depth: nat,
)
    requires
        all_bound(generics),
        all_marks_agree(pack),
        pack.items.len() <= usize::MAX,
    ensures
        closed(lower_type_spec(pack, scope, generics, e, depth)),
    decreases depth, 0nat, 0nat, e,
{
    match e {
        RawType::Named { name, args } => match generic_index_from(generics, name@, 0) {
            Some(g) => {
                lemma_generic_is_first(generics, name@, 0);
                if args@.len() == 0 && depth > 0 {
                    lemma_lowering_is_closed(
                        pack,
                        scope,
                        Seq::empty(),
                        generics[g].binding->Some_0,
                        (depth - 1) as nat,
                    );
                }
            },
            None => {
                if args@.len() == 0 {
                    if primitive_named(name@) is None && !(name@ == "String"@ || name@ == "str"@)
                        && depth > 0 {
                        lemma_resolved_is_in_range(pack, scope.push(name@), pack.reexports.len());
                        match resolve_spec(pack, scope.push(name@)) {
                            Resolved::Item(i) => {
                                lemma_item_lowering_is_closed(
                                    pack,
                                    pack.items[i as int],
                                    (depth - 1) as nat,
                                );
                            },
                            _ => {},
                        }
                    }
                } else if args@.len() == 1 {
                    lemma_lowering_is_closed(pack, scope, generics, args@[0], depth);
                } else if args@.len() == 2 {
                    lemma_lowering_is_closed(pack, scope, generics, args@[0], depth);
                    lemma_lowering_is_closed(pack, scope, generics, args@[1], depth);
                }
            },
        },
        _ => {},
    }
}

proof fn lemma_generic_is_first(generics: Seq<RawGeneric>, name: Seq<char>, from: int)
    requires
        0 <= from,
    ensures
        generic_index_from(generics, name, from) matches Some(g) ==> from <= g < generics.len(),
    decreases generics.len() - from,
{
    if from < generics.len() && generics[from].name@ != name {
        lemma_generic_is_first(generics, name, from + 1);
    }
}

proof fn lemma_types_lowering_is_closed(
    pack: PackModel,
    scope: Seq<Seq<char>>,
    types: Seq<RawType>,
    n: nat,
    depth: nat,
)
    requires
        all_marks_agree(pack),
        pack.items.len() <= usize::MAX,
    ensures
        closed(lower_types_spec(pack, scope, types, n, depth)),
    decreases depth, 1nat, n,
{
    if n == 0 || n > types.len() {
    } else {
        lemma_types_lowering_is_closed(pack, scope, types, (n - 1) as nat, depth);
        lemma_lowering_is_closed(pack, scope, Seq::empty(), types[n - 1], depth);
    }
}

proof fn lemma_fields_lowering_is_closed(
    pack: PackModel,
    scope: Seq<Seq<char>>,
    fields: Seq<RawField>,
    n: nat,
    depth: nat,
)
    requires
        all_marks_agree(pack),
        pack.items.len() <= usize::MAX,
    ensures
        closed(lower_fields_spec(pack, scope, fields, n, depth)),
    decreases depth, 1nat, n,
{
    if n == 0 || n > fields.len() {
    } else {
        lemma_fields_lowering_is_closed(pack, scope, fields, (n - 1) as nat, depth);
        lemma_lowering_is_closed(pack, scope, Seq::empty(), fields[n - 1].ty, depth);
    }
}

proof fn lemma_payload_lowering_is_closed(
    pack: PackModel,
    scope: Seq<Seq<char>>,
    payload: RawPayload,
    depth: nat,
)
    requires
        all_marks_agree(pack),
        pack.items.len() <= usize::MAX,
    ensures
        closed(lower_payload_spec(pack, scope, payload, depth)),
    decreases depth, 2nat, 0nat,
{
    match payload {
        RawPayload::Unit => {},
        RawPayload::Tuple { types } => {
            lemma_types_lowering_is_closed(pack, scope, types@, types@.len(), depth);
        },
        RawPayload::Struct { fields } => {
            lemma_fields_lowering_is_closed(pack, scope, fields@, fields@.len(), depth);
        },
    }
}

proof fn lemma_variants_lowering_is_closed(
    pack: PackModel,
    scope: Seq<Seq<char>>,
    variants: Seq<RawVariant>,
    n: nat,
    depth: nat,
)
    requires
        all_marks_agree(pack),
        pack.items.len() <= usize::MAX,
    ensures
        closed(lower_variants_spec(pack, scope, variants, n, depth)),
    decreases depth, 3nat, n,
{
    if n == 0 || n > variants.len() {
    } else {
        lemma_variants_lowering_is_closed(pack, scope, variants, (n - 1) as nat, depth);
        lemma_payload_lowering_is_closed(pack, scope, variants[n - 1].payload, depth);
    }
}

/// Lowering a data type or an alias is closed, as lowering a type is.
pub proof fn lemma_item_lowering_is_closed(pack: PackModel, item: ItemModel, depth: nat)
    requires
        all_marks_agree(pack),
        marks_agree(item),
        pack.items.len() <= usize::MAX,
    ensures
        closed(lower_item_type_spec(pack, item, depth)),
    decreases depth, 4nat, 0nat,
{
    let scope = parent_spec(item.path);
    if item.decl.mirror is None {
        match item.decl.kind {
            RawDeclKind::Struct { fields, marks } => {
                lemma_fields_lowering_is_closed(pack, scope, fields@, fields@.len(), depth);
            },
            RawDeclKind::Enum { variants, marks } => {
                lemma_variants_lowering_is_closed(pack, scope, variants@, variants@.len(), depth);
            },
            RawDeclKind::TypeAlias { aliased } => {
                lemma_lowering_is_closed(pack, scope, Seq::empty(), aliased, depth);
            },
            _ => {},
        }
    }
}

/// Once a type of the list has failed, the failure stands whatever follows.
proof fn lemma_types_failure_stays(
    pack: PackModel,
    scope: Seq<Seq<char>>,
    types: Seq<RawType>,
    n: nat,
    m: nat,
    depth: nat,
)
    requires
        n <= m <= types.len(),
        lower_types_spec(pack, scope, types, n, depth) is Err,
    ensures
        lower_types_spec(pack, scope, types, m, depth) == lower_types_spec(
            pack,
            scope,
            types,
            n,
            depth,
        ),
    decreases m - n,
{
    if n < m {
        lemma_types_failure_stays(pack, scope, types, n, (m - 1) as nat, depth);
    }
}

/// Once a field has failed, the failure stands whatever follows.
proof fn lemma_fields_failure_stays(
    pack: PackModel,
    scope: Seq<Seq<char>>,
    fields: Seq<RawField>,
    n: nat,
    m: nat,
    depth: nat,
)
    requires
        n <= m <= fields.len(),
        lower_fields_spec(pack, scope, fields, n, depth) is Err,
    ensures
        lower_fields_spec(pack, scope, fields, m, depth) == lower_fields_spec(
            pack,
            scope,
            fields,
            n,
            depth,
        ),
    decreases m - n,
{
    if n < m {
        lemma_fields_failure_stays(pack, scope, fields, n, (m - 1) as nat, depth);
    }
}

/// Once a variant has failed, the failure stands whatever follows.
proof fn lemma_variants_failure_stays(
    pack: PackModel,
    scope: Seq<Seq<char>>,
    variants: Seq<RawVariant>,
    n: nat,
    m: nat,
    depth: nat,
)
    requires
        n <= m <= variants.len(),
        lower_variants_spec(pack, scope, variants, n, depth) is Err,
    ensures
        lower_variants_spec(pack, scope, variants, m, depth) == lower_variants_spec(
            pack,
            scope,
            variants,
            n,
            depth,
        ),
    decreases m - n,
{
    if n < m {
        lemma_variants_failure_stays(pack, scope, variants, n, (m - 1) as nat, depth);
    }
}

proof fn lemma_generic_found(generics: Seq<RawGeneric>, name: Seq<char>, from: int, at: int)
    requires
        0 <= from <= at < generics.len(),
        generics[at].name@ == name,
        forall|k: int| from <= k < at ==> generics[k].name@ != name,
    ensures
        generic_index_from(generics, name, from) == Some(at),
    decreases at - from,
{
    if from < at {
        lemma_generic_found(generics, name, from + 1, at);
    }
}

proof fn lemma_generic_absent(generics: Seq<RawGeneric>, name: Seq<char>, from: int)
    requires
        0 <= from,
        forall|k: int| from <= k < generics.len() ==> generics[k].name@ != name,
    ensures
        generic_index_from(generics, name, from) is None,
    decreases generics.len() - from,
{
    if from < generics.len() {
        lemma_generic_absent(generics, name, from + 1);
    }
}

/// The place of the first generic parameter named `name`.
pub fn find_generic(generics: &Vec<RawGeneric>, name: &str) -> (r: Option<usize>)
    ensures
        match r {
            Some(g) => g < generics.len() && generic_index_from(generics@, name@, 0) == Some(
                g as int,
            ),
            None => generic_index_from(generics@, name@, 0) is None,
        },
{
    let mut i: usize = 0;
    while i < generics.len()
        invariant
            i <= generics.len(),
            forall|k: int| 0 <= k < i ==> generics@[k].name@ != name@,
        decreases generics.len() - i,
    {
        if str_eq(generics[i].name.as_str(), name) {
            proof {
                lemma_generic_found(generics@, name@, 0, i as int);
            }
            return Some(i);
        }
        i += 1;
    }
    proof {
        lemma_generic_absent(generics@, name@, 0);
    }
    None
}

/// The primitive that a native name stands for.
pub fn primitive_by_name(name: &str) -> (r: Option<PrimitiveKind>)
    ensures
        r == primitive_named(name@),
{
    if str_eq(name, "()") {
        Some(PrimitiveKind::Unit)
    } else if str_eq(name, "bool") {
        Some(PrimitiveKind::Bool)
    } else if str_eq(name, "i8") {
        Some(PrimitiveKind::I8)
    } else if str_eq(name, "i16") {
        Some(PrimitiveKind::I16)
    } else if str_eq(name, "i32") {
        Some(PrimitiveKind::I32)
    } else if str_eq(name, "i64") {
        Some(PrimitiveKind::I64)
    } else if str_eq(name, "u8") {
        Some(PrimitiveKind::U8)
    } else if str_eq(name, "u16") {
        Some(PrimitiveKind::U16)
    } else if str_eq(name, "u32") {
        Some(PrimitiveKind::U32)
    } else if str_eq(name, "u64") {
        Some(PrimitiveKind::U64)
    } else if str_eq(name, "isize") {
        Some(PrimitiveKind::Isize)
    } else if str_eq(name, "usize") {
        Some(PrimitiveKind::Usize)
    } else if str_eq(name, "f32") {
        Some(PrimitiveKind::F32)
    } else if str_eq(name, "f64") {
        Some(PrimitiveKind::F64)
    } else {
        None
    }
}

/// The way of crossing that the marks of a data type ask for.
pub fn marks_tag(marks: Marks) -> (r: Option<OwnershipTag>)
    ensures
        r == marks_tag_spec(marks),
{
    if marks.opaque {
        if marks.owned || marks.borrowed {
            None
        } else {
            Some(OwnershipTag::Handle)
        }
    } else if marks.owned {
        if marks.borrowed {
            None
        } else {
            Some(OwnershipTag::Owned)
        }
    } else if marks.borrowed {
        Some(OwnershipTag::Borrowed)
    } else {
        Some(OwnershipTag::ByValue)
    }
}

fn unsupported(construct: &str) -> (r: TypeFailure)
    ensures
        r@ == unsupported_spec(construct@),
{
    TypeFailure { kind: FailureKind::UnsupportedType, construct: construct.to_string() }
}

/// Lowers a native type to its bridge type.
pub fn lower_type(
    pack: &HirPack,
    scope: &Vec<String>,
    generics: &Vec<RawGeneric>,
    e: &RawType,
    depth: usize,
) -> (r: Result<(MirType, OwnershipTag), TypeFailure>)
    ensures
        type_outcome(r) == lower_type_spec(pack@, views(scope@), generics@, *e, depth as nat),
    decreases depth, 0nat, 0nat, e,
{
    match e {
        RawType::Named { name, args } => {
            let n = name.as_str();
            match find_generic(generics, n) {
                Some(g) => {
                    if args.len() != 0 {
                        return Err(unsupported(n));
                    }
                    match &generics[g].binding {
                        None => Err(
                            TypeFailure {
                                kind: FailureKind::UnresolvedGeneric,
                                construct: name.clone(),
                            },
                        ),
                        Some(bound) => {
                            if depth == 0 {
                                Err(unsupported(n))
                            } else {
                                let none: Vec<RawGeneric> = Vec::new();
                                lower_type(pack, scope, &none, bound, depth - 1)
                            }
                        },
                    }
                },
                None => {
                    if args.len() == 0 {
                        match primitive_by_name(n) {
                            Some(k) => Ok((MirType::Primitive(k), OwnershipTag::ByValue)),
                            None => {
                                if str_eq(n, "String") || str_eq(n, "str") {
                                    Ok((MirType::Str, OwnershipTag::ByValue))
                                } else {
                                    let target = child_path(scope, n);
                                    match resolve(pack, &target) {
                                        Resolved::Item(i) => {
                                            if depth == 0 {
                                                Err(unsupported(n))
                                            } else {
                                                lower_item_type(pack, i, depth - 1)
                                            }
                                        },
                                        _ => Err(unsupported(n)),
                                    }
                                }
                            },
                        }
                    } else if args.len() == 1 {
                        if str_eq(n, "Vec") {
                            match lower_type(pack, scope, generics, &args[0], depth) {
                                Ok(l) => {
                                    let is_byte = match &l.0 {
                                        MirType::Primitive(PrimitiveKind::U8) => true,
                                        _ => false,
                                    };
                                    if is_byte {
                                        Ok((MirType::Bytes, OwnershipTag::ByValue))
                                    } else {
                                        Ok((MirType::List(Box::new(l.0)), OwnershipTag::ByValue))
                                    }
                                },
                                Err(f) => Err(f),
                            }
                        } else if str_eq(n, "Option") {
                            match lower_type(pack, scope, generics, &args[0], depth) {
                                Ok(l) => Ok(
                                    (MirType::Optional(Box::new(l.0)), OwnershipTag::ByValue),
                                ),
                                Err(f) => Err(f),
                            }
                        } else if str_eq(n, "Box") {
                            lower_type(pack, scope, generics, &args[0], depth)
                        } else {
                            Err(unsupported(n))
                        }
                    } else if args.len() == 2 {
                        if str_eq(n, "HashMap") || str_eq(n, "BTreeMap") {
                            match lower_type(pack, scope, generics, &args[0], depth) {
                                Ok(k) => match lower_type(pack, scope, generics, &args[1], depth) {
                                    Ok(v) => Ok(
                                        (
                                            MirType::Dict(Box::new(k.0), Box::new(v.0)),
                                            OwnershipTag::ByValue,
                                        ),
                                    ),
                                    Err(f) => Err(f),
                                },
                                Err(f) => Err(f),
                            }
                        } else {
                            Err(unsupported(n))
                        }
                    } else {
                        Err(unsupported(n))
                    }
                },
            }
        },
        RawType::Reference { inner } => Err(unsupported("&")),
        RawType::Pointer { handle } => match handle {
            Some(h) => Ok((MirType::OpaqueHandle { name: h.clone() }, OwnershipTag::Handle)),
            None => Err(unsupported("*")),
        },
        RawType::TraitObject { name } => Err(unsupported(name.as_str())),
    }
}

/// Lowers the types of a tuple payload.
pub fn lower_types(pack: &HirPack, scope: &Vec<String>, types: &Vec<RawType>, depth: usize) -> (r:
    Result<Vec<MirType>, TypeFailure>)
    ensures
        types_outcome(r) == lower_types_spec(
            pack@,
            views(scope@),
            types@,
            types@.len(),
            depth as nat,
        ),
    decreases depth, 1nat, types@.len() + 1,
{
    let none: Vec<RawGeneric> = Vec::new();
    let mut out: Vec<MirType> = Vec::new();
    let mut i: usize = 0;
    assert(types_model(out@) =~= Seq::empty());
    while i < types.len()
        invariant
            i <= types.len(),
            none@ == Seq::<RawGeneric>::empty(),
            lower_types_spec(pack@, views(scope@), types@, i as nat, depth as nat) == Ok::<
                Seq<TypeModel>,
                FailureModel,
            >(types_model(out@)),
        decreases types.len() - i,
    {
        match lower_type(pack, scope, &none, &types[i], depth) {
            Err(f) => {
                proof {
                    lemma_types_failure_stays(
                        pack@,
                        views(scope@),
                        types@,
                        (i + 1) as nat,
                        types@.len(),
                        depth as nat,
                    );
                }
                return Err(f);
            },
            Ok(l) => {
                let ghost before = types_model(out@);
                out.push(l.0);
                assert(types_model(out@) =~= before.push(l.0.model()));
            },
        }
        i += 1;
    }
    Ok(out)
}

/// Lowers the fields of a record or of a struct payload.
pub fn lower_fields(
    pack: &HirPack,
    scope: &Vec<String>,
    fields: &Vec<RawField>,
    depth: usize,
) -> (r: Result<Vec<MirField>, TypeFailure>)
    ensures
        fields_outcome(r) == lower_fields_spec(
            pack@,
            views(scope@),
            fields@,
            fields@.len(),
            depth as nat,
        ),
    decreases depth, 1nat, fields@.len() + 1,
{
    let none: Vec<RawGeneric> = Vec::new();
    let mut out: Vec<MirField> = Vec::new();
    let mut i: usize = 0;
    assert(fields_model(out@) =~= Seq::empty());
    while i < fields.len()
        invariant
            i <= fields.len(),
            none@ == Seq::<RawGeneric>::empty(),
            lower_fields_spec(pack@, views(scope@), fields@, i as nat, depth as nat) == Ok::<
                Seq<FieldModel>,
                FailureModel,
            >(fields_model(out@)),
        decreases fields.len() - i,
    {
        match lower_type(pack, scope, &none, &fields[i].ty, depth) {
            Err(f) => {
                proof {
                    lemma_fields_failure_stays(
                        pack@,
                        views(scope@),
                        fields@,
                        (i + 1) as nat,
                        fields@.len(),
                        depth as nat,
                    );
                }
                return Err(f);
            },
            Ok(l) => {
                let ghost before = fields_model(out@);
                let field = MirField { name: fields[i].name.clone(), ty: l.0 };
                let ghost added = FieldModel { name: field.name@, ty: field.ty.model() };
                out.push(field);
                assert(fields_model(out@) =~= before.push(added));
            },
        }
        i += 1;
    }
    Ok(out)
}

/// Lowers what a variant carries.
pub fn lower_payload(pack: &HirPack, scope: &Vec<String>, payload: &RawPayload, depth: usize) -> (r:
    Result<MirPayload, TypeFailure>)
    ensures
        payload_outcome(r) == lower_payload_spec(pack@, views(scope@), *payload, depth as nat),
    decreases depth, 2nat, 0nat,
{
    match payload {
        RawPayload::Unit => Ok(MirPayload::Unit),
        RawPayload::Tuple { types } => match lower_types(pack, scope, types, depth) {
            Ok(ts) => Ok(MirPayload::Tuple { types: ts }),
            Err(f) => Err(f),
        },
        RawPayload::Struct { fields } => match lower_fields(pack, scope, fields, depth) {
            Ok(fs) => Ok(MirPayload::Struct { fields: fs }),
            Err(f) => Err(f),
        },
    }
}

/// Lowers the variants of an enum.
pub fn lower_variants(
    pack: &HirPack,
    scope: &Vec<String>,
    variants: &Vec<RawVariant>,
    depth: usize,
) -> (r: Result<Vec<MirVariant>, TypeFailure>)
    ensures
        variants_outcome(r) == lower_variants_spec(
            pack@,
            views(scope@),
            variants@,
            variants@.len(),
            depth as nat,
        ),
    decreases depth, 3nat, variants@.len() + 1,
{
    let mut out: Vec<MirVariant> = Vec::new();
    let mut i: usize = 0;
    assert(variants_model(out@) =~= Seq::empty());
    while i < variants.len()
        invariant
            i <= variants.len(),
            lower_variants_spec(pack@, views(scope@), variants@, i as nat, depth as nat) == Ok::<
                Seq<VariantModel>,
                FailureModel,
            >(variants_model(out@)),
        decreases variants.len() - i,
    {
        match lower_payload(pack, scope, &variants[i].payload, depth) {
            Err(f) => {
                proof {
                    lemma_variants_failure_stays(
                        pack@,
                        views(scope@),
                        variants@,
                        (i + 1) as nat,
                        variants@.len(),
                        depth as nat,
                    );
                }
                return Err(f);
            },
            Ok(p) => {
                let ghost before = variants_model(out@);
                let variant = MirVariant { name: variants[i].name.clone(), payload: p };
                let ghost added = VariantModel {
                    name: variant.name@,
                    payload: payload_model(variant.payload),
                };
                out.push(variant);
                assert(variants_model(out@) =~= before.push(added));
            },
        }
        i += 1;
    }
    Ok(out)
}

/// Lowers the data type or alias at place `i` of the items to the bridge type
/// that it stands for where it is named.
pub fn lower_item_type(pack: &HirPack, i: usize, depth: usize) -> (r: Result<
    (MirType, OwnershipTag),
    TypeFailure,
>)
    requires
        i < pack.items.len(),
    ensures
        type_outcome(r) == lower_item_type_spec(pack@, pack@.items[i as int], depth as nat),
    decreases depth, 4nat, 0nat,
{
    let item = &pack.items[i];
    let scope = parent_path(&item.path);
    let name = last_segment(&item.path);
    match &item.decl.mirror {
        Some(target) => match resolve(pack, target) {
            Resolved::Item(t) => Ok(
                (
                    MirType::OpaqueHandle { name: last_segment(&pack.items[t].path) },
                    OwnershipTag::Handle,
                ),
            ),
            _ => Err(unsupported(name.as_str())),
        },
        None => match &item.decl.kind {
            RawDeclKind::Struct { fields, marks } => match marks_tag(*marks) {
                None => Err(
                    TypeFailure { kind: FailureKind::ConflictingOwnership, construct: name },
                ),
                Some(tag) => {
                    if marks.opaque {
                        Ok((MirType::OpaqueHandle { name }, tag))
                    } else {
                        match lower_fields(pack, &scope, fields, depth) {
                            Ok(fs) => Ok((MirType::Record { name, fields: fs }, tag)),
                            Err(f) => Err(f),
                        }
                    }
                },
            },
            RawDeclKind::Enum { variants, marks } => match marks_tag(*marks) {
                None => Err(
                    TypeFailure { kind: FailureKind::ConflictingOwnership, construct: name },
                ),
                Some(tag) => {
                    if marks.opaque {
                        Ok((MirType::OpaqueHandle { name }, tag))
                    } else {
                        match lower_variants(pack, &scope, variants, depth) {
                            Ok(vs) => Ok((MirType::Enum { name, variants: vs }, tag)),
                            Err(f) => Err(f),
                        }
                    }
                },
            },
            RawDeclKind::TypeAlias { aliased } => {
                let none: Vec<RawGeneric> = Vec::new();
                lower_type(pack, &scope, &none, aliased, depth)
            },
            _ => Err(unsupported(name.as_str())),
        },
    }
}

} // verus!
