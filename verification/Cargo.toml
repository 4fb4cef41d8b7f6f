[package]
name = "project_digests"
version = "0.1.0"
edition = "2021"
publish = false

[dependencies]
xxhash-rust = { version = "=0.8.19", features = ["xxh3"] }
cairo-lang-project = "=2.20.0"
cairo-lang-filesystem = "=2.20.0"
anyhow = "=1.0.104"
tracing = "=0.1.44"
