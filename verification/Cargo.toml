[package]
name = "frb_codegen"
version = "0.1.0"
edition = "2021"
publish = false

[dependencies]
anyhow = "1"
itertools = "*"
log = "0.4"
serde = { version = "1", features = ["derive"] }
