[package]
name = "telegram"
version = "0.1.0"
edition = "2021"
publish = false

[dependencies]
chrono = { version = "=0.4.45", default-features = false, features = ["std", "clock"] }
frankenstein = { version = "=0.52.1", default-features = false, features = ["client-reqwest"] }
async-trait = "=0.1.92"
tokio = { version = "=1.54.1", features = ["time", "sync", "macros", "rt"] }
tokio-util = "=0.7.20"
serde = { version = "=1.0.229", features = ["derive"] }
serde_json = "=1.0.154"
thiserror = "=2.0.21"
tracing = "=0.1.44"
