use crate::codegen::ir::hir::hierarchical::ItemClass;
use crate::codegen::ir::hir::raw::{RawDecl, RawDeclKind, Visibility};
use vstd::prelude::*;

verus! {

/// What becomes of a declaration in the resolved crate.
#[derive(Clone, Copy, Debug, PartialEq, Eq, Structural)]
pub enum Entry {
    /// It is an item of the given class.
    Item(ItemClass),
    /// It is a name taken from elsewhere.
    Reexport,
    /// It is left out.
    Ignored,
}

/// The entry that a declaration makes. The shape of the declaration alone
/// decides. Left out are declarations that are neither functions, data types,
/// aliases nor uses, and private ones that mirror nothing.
pub open spec fn classify_spec(decl: RawDecl) -> Entry {
    match decl.kind {
        RawDeclKind::Other => Entry::Ignored,
        RawDeclKind::Use { .. } => Entry::Reexport,
        _ => if decl.visibility == Visibility::Private && decl.mirror is None {
            Entry::Ignored
        } else {
            match decl.kind {
                RawDeclKind::Function { .. } => Entry::Item(ItemClass::Function),
                RawDeclKind::TypeAlias { .. } => Entry::Item(ItemClass::TypeAlias),
                _ => Entry::Item(ItemClass::StructOrEnum),
            }
        },
    }
}

/// The entry that a declaration makes.
pub fn classify(decl: &RawDecl) -> (r: Entry)
    ensures
        r == classify_spec(*decl),
{
    match &decl.kind {
        RawDeclKind::Other => Entry::Ignored,
        RawDeclKind::Use { .. } => Entry::Reexport,
        kind => {
            let private = match decl.visibility {
                Visibility::Private => true,
                _ => false,
            };
            if private && decl.mirror.is_none() {
                Entry::Ignored
            } else {
                match kind {
                    RawDeclKind::Function { .. } => Entry::Item(ItemClass::Function),
                    RawDeclKind::TypeAlias { .. } => Entry::Item(ItemClass::TypeAlias),
                    _ => Entry::Item(ItemClass::StructOrEnum),
                }
            }
        },
    }
}

} // verus!
