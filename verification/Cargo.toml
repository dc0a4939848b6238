[package]
name = "rfs_core"
version = "0.1.0"
edition = "2021"
publish = false

[dependencies]
axum = "=0.6.20"
blake3 = { version = "1", features = ["pure"] }
chrono = { version = "=0.4.45", features = ["serde"] }
deadpool-postgres = "=0.10.5"
futures = "=0.3.34"
serde = { version = "=1.0.229", features = ["derive"] }
serde_json = "=1.0.154"
snowcloud = { version = "=0.4.0", features = ["serde"] }
tokio = { version = "=1.54.1", features = ["fs", "macros", "rt"] }
tokio-postgres = { version = "=0.7.18", features = ["with-chrono-0_4", "with-serde_json-1"] }
