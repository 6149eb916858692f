[package]
name = "mycelia"
version = "0.1.0"
edition = "2021"
publish = false

[dependencies]
semver = "1"
cargo_metadata = "0.17"
clap = { version = "4", features = ["derive"] }
dialoguer = "0.10"
log = "0.4"
env_logger = "0.10"
tokio = { version = "1", features = ["full"] }
octocrab = "0.29"
open = "5"
thiserror = "1"
anyhow = "1"
tonic = "0.10"
prost = "0.12"
