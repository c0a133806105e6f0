[package]
name = "ymz"
version = "0.1.0"
edition = "2021"
publish = false

[dependencies]
reqwest = { version = "0.12", default-features = false, features = ["json", "rustls-tls"] }
tokio = { version = "1", features = ["full"] }
serde = { version = "1", features = ["derive"] }
serde_json = "1"
md-5 = "0.10"
roxmltree = "0.20"
chrono = "0.4"
log = "0.4"
env_logger = "0.11"
rodio = "0.20"
zbus = "4"
