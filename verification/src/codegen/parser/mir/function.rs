use crate::codegen::ir::hir::hierarchical::{HirPack, PackModel};
use crate::codegen::ir::hir::raw::{RawField, RawFunction, RawGeneric, RawType};
use crate::codegen::ir::mir::{
    FunctionModel, MirFunction, MirParam, MirSlot, MirType, OwnershipTag, ParamModel,
    PrimitiveKind, SlotModel, TypeModel,
};
use crate::codegen::parser::mir::ty::{
    lower_type, lower_type_spec, FailureKind, FailureModel, TypeFailure,
};
use crate::text::views;
use vstd::prelude::*;
use vstd::string::*;

verus! {

/// The type of a value position and the way in which the value crosses. A
/// position written as a reference lends its value; any other position goes by
/// what its type asks for. A reference to a type that is moved or known by a
/// handle asks for two ways at once.
pub open spec fn lower_slot_spec(
    pack: PackModel,
    scope: Seq<Seq<char>>,
    generics: Seq<RawGeneric>,
    e: RawType,
    depth: nat,
) -> Result<SlotModel, FailureModel> {
    match e {
        RawType::Reference { inner } => match lower_type_spec(
            pack,
            scope,
            generics,
            *inner,
            depth,
        ) {
            Ok(l) => if l.tag == OwnershipTag::ByValue || l.tag == OwnershipTag::Borrowed {
                Ok(SlotModel { ty: l.ty, tag: OwnershipTag::Borrowed })
            } else {
                Err(FailureModel { kind: FailureKind::ConflictingOwnership, construct: "&"@ })
            },
            Err(f) => Err(f),
        },
        _ => match lower_type_spec(pack, scope, generics, e, depth) {
            Ok(l) => Ok(SlotModel { ty: l.ty, tag: l.tag }),
            Err(f) => Err(f),
        },
    }
}

/// The first `n` parameters with their value positions.
pub open spec fn lower_params_spec(
    pack: PackModel,
    scope: Seq<Seq<char>>,
    generics: Seq<RawGeneric>,
    params: Seq<RawField>,
    n: nat,
    depth: nat,
) -> Result<Seq<ParamModel>, FailureModel>
    decreases n,
{
    if n == 0 || n > params.len() {
        Ok(Seq::empty())
    } else {
        match lower_params_spec(pack, scope, generics, params, (n - 1) as nat, depth) {
            Err(f) => Err(f),
            Ok(done) => match lower_slot_spec(pack, scope, generics, params[n - 1].ty, depth) {
                Err(f) => Err(f),
                Ok(slot) => Ok(done.push(ParamModel { name: params[n - 1].name@, slot })),
            },
        }
    }
}

/// The value position of a result: that of its type, or the unit where the
/// function returns nothing.
pub open spec fn lower_return_spec(
    pack: PackModel,
    scope: Seq<Seq<char>>,
    generics: Seq<RawGeneric>,
    ret: Option<RawType>,
    depth: nat,
) -> Result<SlotModel, FailureModel> {
    match ret {
        None => Ok(
            SlotModel { ty: TypeModel::Primitive(PrimitiveKind::Unit), tag: OwnershipTag::ByValue },
        ),
        Some(t) => lower_slot_spec(pack, scope, generics, t, depth),
    }
}

/// The bridged form of a function declared in the module `scope`: its
/// parameters in their order, its result, and the type of its error; or the
/// first failure among them, in that order.
pub open spec fn lower_function_spec(
    pack: PackModel,
    scope: Seq<Seq<char>>,
    f: RawFunction,
    depth: nat,
) -> Result<FunctionModel, FailureModel> {
    match lower_params_spec(pack, scope, f.generics@, f.params@, f.params@.len(), depth) {
        Err(e) => Err(e),
        Ok(params) => match lower_return_spec(pack, scope, f.generics@, f.ret, depth) {
            Err(e) => Err(e),
            Ok(ret) => match f.fallible {
                None => Ok(FunctionModel { params, ret, fallible: None, mode: f.mode }),
                Some(t) => match lower_type_spec(pack, scope, f.generics@, t, depth) {
                    Err(e) => Err(e),
                    Ok(l) => Ok(FunctionModel { params, ret, fallible: Some(l.ty), mode: f.mode }),
                },
            },
        },
    }
}

/// The outcome of lowering a value position, as plain values.
pub open spec fn slot_outcome(r: Result<MirSlot, TypeFailure>) -> Result<SlotModel, FailureModel> {
    match r {
        Ok(s) => Ok(s.model()),
        Err(f) => Err(f@),
    }
}

/// The outcome of lowering a function, as plain values.
pub open spec fn function_outcome(r: Result<MirFunction, TypeFailure>) -> Result<
    FunctionModel,
    FailureModel,
> {
    match r {
        Ok(f) => Ok(f.model()),
        Err(f) => Err(f@),
    }
}

/// The parameters of a vector, as plain values.
pub open spec fn params_model(params: Seq<MirParam>) -> Seq<ParamModel> {
    Seq::new(params.len(), |i: int| params[i].model())
}

proof fn lemma_params_failure_stays(
    pack: PackModel,
    scope: Seq<Seq<char>>,
    generics: Seq<RawGeneric>,
    params: Seq<RawField>,
    n: nat,
    m: nat,
    depth: nat,
)
    requires
        n <= m <= params.len(),
        lower_params_spec(pack, scope, generics, params, n, depth) is Err,
    ensures
        lower_params_spec(pack, scope, generics, params, m, depth) == lower_params_spec(
            pack,
            scope,
            generics,
            params,
            n,
            depth,
        ),
    decreases m - n,
{
    if n < m {
        lemma_params_failure_stays(pack, scope, generics, params, n, (m - 1) as nat, depth);
    }
}

/// Lowers a value position.
pub fn lower_slot(
    pack: &HirPack,
    scope: &Vec<String>,
    generics: &Vec<RawGeneric>,
    e: &RawType,
    depth: usize,
) -> (r: Result<MirSlot, TypeFailure>)
    ensures
        slot_outcome(r) == lower_slot_spec(pack@, views(scope@), generics@, *e, depth as nat),
{
    match e {
        RawType::Reference { inner } => match lower_type(pack, scope, generics, inner, depth) {
            Ok(l) => {
                let lendable = match l.1 {
                    OwnershipTag::ByValue => true,
                    OwnershipTag::Borrowed => true,
                    _ => false,
                };
                if lendable {
                    Ok(MirSlot { ty: l.0, tag: OwnershipTag::Borrowed })
                } else {
                    Err(
                        TypeFailure {
                            kind: FailureKind::ConflictingOwnership,
                            construct: "&".to_string(),
                        },
                    )
                }
            },
            Err(f) => Err(f),
        },
        _ => match lower_type(pack, scope, generics, e, depth) {
            Ok(l) => Ok(MirSlot { ty: l.0, tag: l.1 }),
            Err(f) => Err(f),
        },
    }
}

/// Lowers a function to its bridged form.
pub fn lower_function(pack: &HirPack, scope: &Vec<String>, f: &RawFunction, depth: usize) -> (r:
    Result<MirFunction, TypeFailure>)
    ensures
        function_outcome(r) == lower_function_spec(pack@, views(scope@), *f, depth as nat),
{
    let mut params: Vec<MirParam> = Vec::new();
    let mut i: usize = 0;
    assert(params_model(params@) =~= Seq::empty());
    while i < f.params.len()
        invariant
            i <= f.params.len(),
            lower_params_spec(
                pack@,
                views(scope@),
                f.generics@,
                f.params@,
                i as nat,
                depth as nat,
            ) == Ok::<Seq<ParamModel>, FailureModel>(params_model(params@)),
        decreases f.params.len() - i,
    {
        match lower_slot(pack, scope, &f.generics, &f.params[i].ty, depth) {
            Err(e) => {
                proof {
                    lemma_params_failure_stays(
                        pack@,
                        views(scope@),
                        f.generics@,
                        f.params@,
                        (i + 1) as nat,
                        f.params@.len(),
                        depth as nat,
                    );
                }
                return Err(e);
            },
            Ok(slot) => {
                let ghost before = params_model(params@);
                let param = MirParam { name: f.params[i].name.clone(), slot };
                let ghost added = param.model();
                params.push(param);
                assert(params_model(params@) =~= before.push(added));
            },
        }
        i += 1;
    }
    let ret = match &f.ret {
        None => MirSlot { ty: MirType::Primitive(PrimitiveKind::Unit), tag: OwnershipTag::ByValue },
        Some(t) => match lower_slot(pack, scope, &f.generics, t, depth) {
            Ok(s) => s,
            Err(e) => {
                return Err(e);
            },
        },
    };
    let fallible = match &f.fallible {
        None => None,
        Some(t) => match lower_type(pack, scope, &f.generics, t, depth) {
            Ok(l) => Some(l.0),
            Err(e) => {
                return Err(e);
            },
        },
    };
    let done = MirFunction { params, ret, fallible, mode: f.mode };
    assert(done.model().params =~= params_model(params@));
    Ok(done)
}

} // verus!
