[package]
name = "derive_display"
version = "0.1.0"
edition = "2021"
publish = false

[dependencies]
syn = { version = "=2.0.119", features = ["full"] }
proc-macro2 = "=1.0.107"
quote = "=1.0.47"
darling = "=0.20.11"
manyhow = "0.11"
