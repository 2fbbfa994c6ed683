[package]
name = "aerowan"
version = "0.1.0"
edition = "2021"
publish = false

[dependencies]
anyhow = "1"
axum = "0.8"
crossterm = "0.28"
dirs = "6"
hex = "0.4"
log = "0.4"
network-interface = "2"
rand_core = { version = "0.6", features = ["getrandom"] }
ratatui = "0.29"
reqwest = { version = "0.12", default-features = false }
serde = { version = "1", features = ["derive"] }
serde_json = "1"
tokio = { version = "1", features = ["macros", "rt-multi-thread", "signal", "net", "sync", "time", "process"] }
toml = "0.8"
