[package]
name = "dws"
version = "0.1.0"
edition = "2021"
publish = false

[dependencies]
anyhow = "1"
axum = { version = "*", features = ["ws"] }
cfg-if = "1"
clap = { version = "4", features = ["derive", "env"] }
ctrlc = "3"
futures-util = "0.3"
governor = "*"
log = "0.4"
once_cell = "1"
parking_lot = "0.12"
procfs = "*"
rand = "0.8"
reqwest = { version = "0.12", default-features = false, features = ["rustls-tls"] }
rustrict = "*"
serde = { version = "1", features = ["derive"] }
serde_json = "1"
serde_with = "*"
serenity = { version = "0.12", default-features = false, features = ["builder", "http", "model", "rustls_backend", "interactions_endpoint"] }
tokio = { version = "1", features = ["rt-multi-thread", "macros", "sync", "time", "fs"] }
tracing = "0.1"
tracing-subscriber = { version = "0.3", features = ["env-filter"] }
uuid = { version = "1", features = ["serde"] }
