pub mod hir;
pub mod mir;
pub mod path;
