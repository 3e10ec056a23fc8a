[package]
name = "cfr_proto"
version = "0.1.0"
edition = "2021"
publish = false

[dependencies]
rand = "0.8"
anyhow = "1"
atomic_float = "*"
clap = { version = "4", features = ["derive"] }
csv = "1"
ndarray = "*"
serde = { version = "1", features = ["derive"] }
serde_json = "1"
toml = "*"
