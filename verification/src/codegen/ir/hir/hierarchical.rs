use crate::codegen::ir::hir::raw::{RawDecl, Visibility};
use crate::text::views;
use vstd::prelude::*;

verus! {

/// The three kinds of item that later stages know.
#[derive(Clone, Copy, Debug, PartialEq, Eq, Structural)]
pub enum ItemClass {
    Function,
    StructOrEnum,
    TypeAlias,
}

/// One source crate of the run.
#[derive(Debug, PartialEq, Eq)]
pub struct HirCrate {
    pub name: String,
    /// Whether the crate is bridged, or only looked into for types.
    pub primary: bool,
}

/// A module, known by its path from the crate's name down.
#[derive(Debug, PartialEq, Eq)]
pub struct HirModule {
    pub path: Vec<String>,
    pub declared: Visibility,
    pub visibility: Visibility,
}

/// An item, known by the path of its module and its own name. The declaration
/// stays where it was read; the item refers to it.
#[derive(Debug, PartialEq, Eq)]
pub struct HirItem<'a> {
    pub path: Vec<String>,
    pub class: ItemClass,
    pub visibility: Visibility,
    pub decl: &'a RawDecl,
}

/// A name that a module takes from elsewhere: an edge from the path of the name
/// to the path it was taken from. The edge is followed only when the name is
/// looked up.
#[derive(Debug, PartialEq, Eq)]
pub struct HirReexport {
    pub path: Vec<String>,
    pub visibility: Visibility,
    pub target: Vec<String>,
}

/// The resolved crates of one run, as tables keyed by path: every module, item
/// and re-export under the path that names it, in the order of the source.
#[derive(Debug, PartialEq, Eq)]
pub struct HirPack<'a> {
    pub crates: Vec<HirCrate>,
    pub modules: Vec<HirModule>,
    pub items: Vec<HirItem<'a>>,
    pub reexports: Vec<HirReexport>,
}

/// What a `HirCrate` says, as plain sequences and values, for use in contracts.
pub struct CrateModel {
    pub name: Seq<char>,
    pub primary: bool,
}

/// What a `HirModule` says, as plain sequences and values, for use in contracts.
pub struct ModuleModel {
    pub path: Seq<Seq<char>>,
    pub declared: Visibility,
    pub visibility: Visibility,
}

/// What a `HirItem` says, as plain sequences and values, for use in contracts.
pub struct ItemModel {
    pub path: Seq<Seq<char>>,
    pub class: ItemClass,
    pub visibility: Visibility,
    pub decl: RawDecl,
}

/// What a `HirReexport` says, as plain sequences and values, for use in contracts.
pub struct ReexportModel {
    pub path: Seq<Seq<char>>,
    pub visibility: Visibility,
    pub target: Seq<Seq<char>>,
}

/// What a `HirPack` says, as plain sequences and values, for use in contracts.
#[verifier::ext_equal]
pub struct PackModel {
    pub crates: Seq<CrateModel>,
    pub modules: Seq<ModuleModel>,
    pub items: Seq<ItemModel>,
    pub reexports: Seq<ReexportModel>,
}

impl View for HirCrate {
    type V = CrateModel;

    open spec fn view(&self) -> CrateModel {
        CrateModel { name: self.name@, primary: self.primary }
    }
}

impl View for HirModule {
    type V = ModuleModel;

    open spec fn view(&self) -> ModuleModel {
        ModuleModel {
            path: views(self.path@),
            declared: self.declared,
            visibility: self.visibility,
        }
    }
}

impl<'a> View for HirItem<'a> {
    type V = ItemModel;

    open spec fn view(&self) -> ItemModel {
        ItemModel {
            path: views(self.path@),
            class: self.class,
            visibility: self.visibility,
            decl: *self.decl,
        }
    }
}

impl View for HirReexport {
    type V = ReexportModel;

    open spec fn view(&self) -> ReexportModel {
        ReexportModel {
            path: views(self.path@),
            visibility: self.visibility,
            target: views(self.target@),
        }
    }
}

impl<'a> View for HirPack<'a> {
    type V = PackModel;

    open spec fn view(&self) -> PackModel {
        PackModel {
            crates: Seq::new(self.crates@.len(), |i: int| self.crates@[i]@),
            modules: Seq::new(self.modules@.len(), |i: int| self.modules@[i]@),
            items: Seq::new(self.items@.len(), |i: int| self.items@[i]@),
            reexports: Seq::new(self.reexports@.len(), |i: int| self.reexports@[i]@),
        }
    }
}

impl PackModel {
    /// The pack without any entry.
    pub open spec fn empty() -> PackModel {
        PackModel {
            crates: Seq::empty(),
            modules: Seq::empty(),
            items: Seq::empty(),
            reexports: Seq::empty(),
        }
    }

    /// The pack that holds one crate and nothing else.
    pub open spec fn of_crate(c: CrateModel) -> PackModel {
        PackModel { crates: seq![c], ..PackModel::empty() }
    }

    /// The pack that holds one module and nothing else.
    pub open spec fn of_module(m: ModuleModel) -> PackModel {
        PackModel { modules: seq![m], ..PackModel::empty() }
    }

    /// The pack that holds one item and nothing else.
    pub open spec fn of_item(i: ItemModel) -> PackModel {
        PackModel { items: seq![i], ..PackModel::empty() }
    }

    /// The pack that holds one re-export and nothing else.
    pub open spec fn of_reexport(r: ReexportModel) -> PackModel {
        PackModel { reexports: seq![r], ..PackModel::empty() }
    }

    /// Adding packs one after another comes to the same however they are
    /// grouped, and the empty pack adds nothing.
    pub proof fn lemma_plus(a: PackModel, b: PackModel, c: PackModel)
        ensures
            a.plus(b).plus(c) == a.plus(b.plus(c)),
            a.plus(PackModel::empty()) == a,
            PackModel::empty().plus(a) == a,
    {
        assert(a.plus(b).plus(c) =~= a.plus(b.plus(c)));
        assert(a.plus(PackModel::empty()) =~= a);
        assert(PackModel::empty().plus(a) =~= a);
    }

    /// The entries of `self` followed, table by table, by those of `other`.
    pub open spec fn plus(self, other: PackModel) -> PackModel {
        PackModel {
            crates: self.crates + other.crates,
            modules: self.modules + other.modules,
            items: self.items + other.items,
            reexports: self.reexports + other.reexports,
        }
    }
}

impl<'a> HirPack<'a> {
    /// The pack that holds nothing yet.
    pub fn new() -> (r: Self)
        ensures
            r@ == PackModel::empty(),
    {
        let r = HirPack {
            crates: Vec::new(),
            modules: Vec::new(),
            items: Vec::new(),
            reexports: Vec::new(),
        };
        assert(r@.crates =~= Seq::empty() && r@.modules =~= Seq::empty() && r@.items
            =~= Seq::empty() && r@.reexports =~= Seq::empty());
        r
    }

    /// Puts `module` behind the modules of `self`.
    pub fn push_module(&mut self, module: HirModule)
        ensures
            final(self)@ == old(self)@.plus(PackModel::of_module(module@)),
    {
        self.modules.push(module);
        assert(self@ =~= old(self)@.plus(PackModel::of_module(module@)));
    }

    /// Puts `item` behind the items of `self`.
    pub fn push_item(&mut self, item: HirItem<'a>)
        ensures
            final(self)@ == old(self)@.plus(PackModel::of_item(item@)),
    {
        self.items.push(item);
        assert(self@ =~= old(self)@.plus(PackModel::of_item(item@)));
    }

    /// Puts `reexport` behind the re-exports of `self`.
    pub fn push_reexport(&mut self, reexport: HirReexport)
        ensures
            final(self)@ == old(self)@.plus(PackModel::of_reexport(reexport@)),
    {
        self.reexports.push(reexport);
        assert(self@ =~= old(self)@.plus(PackModel::of_reexport(reexport@)));
    }

    /// Puts `entry` behind the crates of `self`.
    pub fn push_crate(&mut self, entry: HirCrate)
        ensures
            final(self)@ == old(self)@.plus(PackModel::of_crate(entry@)),
    {
        self.crates.push(entry);
        assert(self@ =~= old(self)@.plus(PackModel::of_crate(entry@)));
    }

    /// Moves the entries of `other` behind those of `self`.
    pub fn absorb(&mut self, other: HirPack<'a>)
        ensures
            final(self)@ == old(self)@.plus(other@),
    {
        let ghost added = other@;
        let mut other = other;
        self.crates.append(&mut other.crates);
        self.modules.append(&mut other.modules);
        self.items.append(&mut other.items);
        self.reexports.append(&mut other.reexports);
        assert(self@.crates =~= old(self)@.crates + added.crates);
        assert(self@.modules =~= old(self)@.modules + added.modules);
        assert(self@.items =~= old(self)@.items + added.items);
        assert(self@.reexports =~= old(self)@.reexports + added.reexports);
    }
}

} // verus!
