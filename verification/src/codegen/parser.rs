pub mod hir;
pub mod mir;
