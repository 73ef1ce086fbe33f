[package]
name = "optical_entropy"
version = "0.1.0"
edition = "2021"
publish = false

[dependencies]
blake3 = "1"
sha2 = "0.10"
rand_chacha = "0.3"
rand_core = { version = "0.6", features = ["getrandom"] }
serde = { version = "1", features = ["derive"] }
toml = "0.8"
thiserror = "1"
tracing = "0.1"
tracing-subscriber = { version = "0.3", features = ["env-filter"] }
clap = { version = "4", features = ["derive"] }
ctrlc = "3"
prometheus = "0.13"
axum = "0.7"
tokio = { version = "1", features = ["rt-multi-thread", "net", "sync", "macros"] }
nokhwa = { version = "0.10", features = ["input-native"] }
