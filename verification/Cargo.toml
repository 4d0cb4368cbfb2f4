[package]
name = "pinned_state"
version = "0.1.0"
edition = "2021"
publish = false

[dependencies]
anyhow = "=1.0.104"
curl = "=0.4.51"
hex = "=0.4.3"
primitive-types = { version = "=0.11.1", features = ["serde"] }
revm = "=1.9.0"
revm_precompiles = { version = "=1.1.0", default-features = false }
serde = { version = "=1.0.229", features = ["derive"] }
serde_json = "=1.0.154"
