pub mod command_runner;
pub mod format_dart;
pub mod format_rust;
