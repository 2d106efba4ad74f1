[package]
name = "scope_hoist"
version = "0.1.0"
edition = "2021"
publish = false

[dependencies]
scoped-tls = "=1.0.0"
serde = { version = "=1.0.219", features = ["derive"] }
swc_atoms = "=0.2.13"
swc_common = "=0.11.9"
swc_ecmascript = { version = "=0.46.0", features = ["parser", "transforms", "visit", "codegen"] }
swc_macros_common = ">=0.3.2, <0.3.4"
