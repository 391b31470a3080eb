[package]
name = "lattice_storage"
version = "0.1.0"
edition = "2021"
publish = false

[dependencies]
async-nats = "0.33"
async-trait = "=0.1.92"
derive_builder = "=0.12.0"
nkeys = "=0.3.2"
semver = "=1.0.28"
serde = { version = "=1.0.229", features = ["derive"] }
serde_json = "=1.0.154"
thiserror = "=1.0.69"
tokio = { version = "=1.54.1", features = ["fs"] }
