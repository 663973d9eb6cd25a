pub mod hierarchical;
pub mod internal_config;
