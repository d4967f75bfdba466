[package]
name = "candid_extractor"
version = "0.1.0"
edition = "2021"
publish = false

[dependencies]
anyhow = "=1.0.104"
wasmtime = "=48.0.5"
