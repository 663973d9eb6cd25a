use vstd::prelude::*;

verus! {

/// How far a declaration can be seen. The variants are in rising order.
#[derive(Clone, Copy, Debug, PartialEq, Eq, Structural)]
pub enum Visibility {
    Private,
    CrateLocal,
    Public,
}

/// A type as it is written in the native source.
#[derive(Debug, PartialEq, Eq)]
pub enum RawType {
    /// A type named by its last path segment, with its type arguments.
    Named { name: String, args: Vec<RawType> },
    /// A shared reference to a value of the inner type.
    Reference { inner: Box<RawType> },
    /// A raw pointer; `handle` names the handle it stands for, where the source
    /// says so.
    Pointer { handle: Option<String> },
    /// A trait object.
    TraitObject { name: String },
}

/// A named value position: a field of a record or a parameter of a function.
#[derive(Debug, PartialEq, Eq)]
pub struct RawField {
    pub name: String,
    pub ty: RawType,
}

/// What a variant of an enum carries.
#[derive(Debug, PartialEq, Eq)]
pub enum RawPayload {
    Unit,
    Tuple { types: Vec<RawType> },
    Struct { fields: Vec<RawField> },
}

/// One variant of an enum.
#[derive(Debug, PartialEq, Eq)]
pub struct RawVariant {
    pub name: String,
    pub payload: RawPayload,
}

/// A generic parameter of a function, with the concrete type that it is used
/// with where one is known.
#[derive(Debug, PartialEq, Eq)]
pub struct RawGeneric {
    pub name: String,
    pub binding: Option<RawType>,
}

/// Whether a function returns when its work is done, or hands its result over later.
#[derive(Clone, Copy, Debug, PartialEq, Eq, Structural)]
pub enum ExecutionMode {
    Blocking,
    Asynchronous,
}

/// The signature of a function.
#[derive(Debug, PartialEq, Eq)]
pub struct RawFunction {
    pub generics: Vec<RawGeneric>,
    pub params: Vec<RawField>,
    /// The type of the result; `None` where the function returns nothing.
    pub ret: Option<RawType>,
    /// The type of the error, where the function can fail.
    pub fallible: Option<RawType>,
    pub mode: ExecutionMode,
}

/// What the source says of how values of a data type cross the boundary.
#[derive(Clone, Copy, Debug, PartialEq, Eq, Structural)]
pub struct Marks {
    pub owned: bool,
    pub borrowed: bool,
    pub opaque: bool,
}

/// What a declaration declares.
#[derive(Debug, PartialEq, Eq)]
pub enum RawDeclKind {
    Function { function: RawFunction },
    Struct { fields: Vec<RawField>, marks: Marks },
    Enum { variants: Vec<RawVariant>, marks: Marks },
    TypeAlias { aliased: RawType },
    /// A `use` of the item at `target`, an absolute path that begins with the name
    /// of a crate.
    Use { target: Vec<String> },
    /// Anything else: an impl, a macro, a constant, attributes alone.
    Other,
}

/// One declaration of a module.
#[derive(Debug, PartialEq, Eq)]
pub struct RawDecl {
    pub name: String,
    pub visibility: Visibility,
    /// The absolute path of the type that this declaration mirrors, where it
    /// mirrors one.
    pub mirror: Option<Vec<String>>,
    pub kind: RawDeclKind,
}

/// A module of the source: what it declares, and the modules inside it.
#[derive(Debug, PartialEq, Eq)]
pub struct RawModule {
    pub name: String,
    pub visibility: Visibility,
    pub decls: Vec<RawDecl>,
    pub modules: Vec<RawModule>,
}

/// The syntax tree of one crate. The name of the root module is not used: the
/// root is known by the name of the crate.
#[derive(Debug, PartialEq, Eq)]
pub struct RawCrate {
    pub name: String,
    pub root: RawModule,
}

/// The syntax trees of the crates of one run.
#[derive(Debug, PartialEq, Eq)]
pub struct HirRawPack {
    pub crates: Vec<RawCrate>,
}

} // verus!
