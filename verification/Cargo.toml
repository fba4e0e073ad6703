[package]
name = "clusterctl"
version = "0.1.0"
edition = "2021"
publish = false

[dependencies]
anyhow = "=1.0.104"
clap = "=2.34.0"
console = "=0.10.3"
dialoguer = "=0.5.1"
serde = { version = "=1.0.229", features = ["derive"] }
toml = "=0.5.11"
