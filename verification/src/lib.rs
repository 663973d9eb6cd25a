pub mod build_web;
pub mod codegen;
pub mod commands;
pub mod text;
pub mod utils;
