pub mod hierarchical;
pub mod raw;
