[package]
name = "dg_edge_updater"
version = "0.1.0"
edition = "2021"
publish = false

[dependencies]
semver = "1"
log = "0.4"
serde = { version = "1", features = ["derive"] }
serde_yaml = "0.9"
tokio = { version = "1", features = ["full"] }
reqwest = { version = "0.12", default-features = false, features = ["rustls-tls"] }
